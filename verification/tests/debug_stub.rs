//! The debug stub's state machine and breakpoint table.

use uhyve::debug::{stub_step, single_step_enabled, BreakpointTable, StubEvent, StubState};

#[test]
fn stub_happy_path() {
    let s = StubState::Disconnected;
    let s = stub_step(s, StubEvent::Listen);
    assert_eq!(s, StubState::Waiting);
    let s = stub_step(s, StubEvent::Accepted);
    assert_eq!(s, StubState::Stopped);
    let s = stub_step(s, StubEvent::Resume);
    assert_eq!(s, StubState::Running);
    let s = stub_step(s, StubEvent::Trap);
    assert_eq!(s, StubState::Stopped);
    let s = stub_step(s, StubEvent::Step);
    assert_eq!(s, StubState::Stepping);
    assert!(single_step_enabled(s));
    let s = stub_step(s, StubEvent::Trap);
    assert_eq!(s, StubState::Stopped);
    assert!(!single_step_enabled(s));
}

#[test]
fn stub_dead_is_terminal() {
    let s = stub_step(StubState::Running, StubEvent::Closed);
    assert_eq!(s, StubState::Dead);
    for event in [
        StubEvent::Listen,
        StubEvent::Accepted,
        StubEvent::Resume,
        StubEvent::Step,
        StubEvent::Trap,
        StubEvent::Closed,
    ] {
        assert_eq!(stub_step(StubState::Dead, event), StubState::Dead);
    }
}

#[test]
fn stub_protocol_violation_dies() {
    // an event a state does not expect closes the session
    assert_eq!(stub_step(StubState::Waiting, StubEvent::Resume), StubState::Dead);
    assert_eq!(stub_step(StubState::Running, StubEvent::Step), StubState::Dead);
    assert_eq!(stub_step(StubState::Disconnected, StubEvent::Trap), StubState::Dead);
}

#[test]
fn breakpoints_restore_original_bytes() {
    let mut table = BreakpointTable::new();
    assert_eq!(table.lookup(0x1000), None);
    assert!(table.insert(0x1000, 0x90));
    assert!(table.insert(0x2000, 0x55));
    // a second swap at the same address must not displace the original byte
    assert!(!table.insert(0x1000, 0xcc));
    assert_eq!(table.lookup(0x1000), Some(0x90));
    assert_eq!(table.lookup(0x2000), Some(0x55));
    assert_eq!(table.remove(0x1000), Some(0x90));
    assert_eq!(table.lookup(0x1000), None);
    assert_eq!(table.remove(0x1000), None);
    assert_eq!(table.remove(0x2000), Some(0x55));
}
