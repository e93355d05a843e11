//! The remote-debug stub's control logic.
//!
//! When a debug port is configured (and the machine has a single vCPU, see
//! the configuration gate), the stub accepts one TCP connection before the
//! guest resumes and then drives the vCPU through a small state machine:
//! held at a stop, running free, or single-stepping, until either side
//! closes.  Software breakpoints are instruction-byte swaps keyed by the
//! guest-physical address they were patched at, so every transmitted memory
//! read can restore the original bytes.  The TCP socket, the register access
//! and the actual byte patching belong to the embedding program.

use vstd::prelude::*;

verus! {

/// Where the stub stands between protocol events.
#[derive(Clone, Copy, Debug, PartialEq, Eq, Structural)]
pub enum StubState {
    /// No listener yet: the stub was configured but not started.
    Disconnected,
    /// Listening: the guest is held until a client connects.
    Waiting,
    /// The guest runs free with breakpoints installed.
    Running,
    /// The vCPU is held; the client inspects and commands.
    Stopped,
    /// The vCPU runs one instruction with the single-step trap enabled.
    Stepping,
    /// Terminal: either side closed, the guest runs undisturbed from here.
    Dead,
}

/// What reaches the stub from the client or from the vCPU.
#[derive(Clone, Copy, Debug, PartialEq, Eq, Structural)]
pub enum StubEvent {
    /// The stub starts listening on its port.
    Listen,
    /// A client connection was accepted.
    Accepted,
    /// The client asked to continue.
    Resume,
    /// The client asked for a single step.
    Step,
    /// The vCPU trapped: a breakpoint was hit or the step finished.
    Trap,
    /// Either side closed the connection, or the protocol was violated.
    Closed,
}

/// The transition table of the stub.  Anything a state does not expect —
/// including an explicit close — ends in the terminal `Dead` state; the
/// guest then continues without the stub.
pub open spec fn spec_stub_step(state: StubState, event: StubEvent) -> StubState {
    match (state, event) {
        (StubState::Disconnected, StubEvent::Listen) => StubState::Waiting,
        (StubState::Waiting, StubEvent::Accepted) => StubState::Stopped,
        (StubState::Stopped, StubEvent::Resume) => StubState::Running,
        (StubState::Stopped, StubEvent::Step) => StubState::Stepping,
        (StubState::Running, StubEvent::Trap) => StubState::Stopped,
        (StubState::Stepping, StubEvent::Trap) => StubState::Stopped,
        _ => StubState::Dead,
    }
}

/// Whether the vCPU must run with the single-step trap enabled.
pub open spec fn spec_single_step(state: StubState) -> bool {
    state is Stepping
}

/// Advance the stub by one event.
pub fn stub_step(state: StubState, event: StubEvent) -> (r: StubState)
    ensures
        r == spec_stub_step(state, event),
{
    match (state, event) {
        (StubState::Disconnected, StubEvent::Listen) => StubState::Waiting,
        (StubState::Waiting, StubEvent::Accepted) => StubState::Stopped,
        (StubState::Stopped, StubEvent::Resume) => StubState::Running,
        (StubState::Stopped, StubEvent::Step) => StubState::Stepping,
        (StubState::Running, StubEvent::Trap) => StubState::Stopped,
        (StubState::Stepping, StubEvent::Trap) => StubState::Stopped,
        _ => StubState::Dead,
    }
}

/// Whether the vCPU must run with the single-step trap enabled now.
pub fn single_step_enabled(state: StubState) -> (r: bool)
    ensures
        r == spec_single_step(state),
{
    match state {
        StubState::Stepping => true,
        _ => false,
    }
}

/// The stub never leaves the terminal state: once closed, no event revives
/// the connection.
pub proof fn lemma_dead_is_terminal(event: StubEvent)
    ensures
        spec_stub_step(StubState::Dead, event) == StubState::Dead,
{
}

/// The installed software breakpoints: for each patched guest-physical
/// address, the original instruction byte the patch displaced.
pub struct BreakpointTable {
    entries: Vec<(u64, u8)>,
}

impl BreakpointTable {
    /// The installed swaps, in installation order.
    pub closed spec fn entries(self) -> Seq<(u64, u8)> {
        self.entries@
    }

    /// At most one swap per guest-physical address, so restoring can never
    /// write back a stale byte.
    pub closed spec fn wf(self) -> bool {
        forall|i: int, j: int|
            0 <= i < j < self.entries@.len() ==> (#[trigger] self.entries@[i]).0 != (
            #[trigger] self.entries@[j]).0
    }

    /// Whether a swap is installed at `gpa`.
    pub open spec fn spec_contains(self, gpa: u64) -> bool {
        exists|i: int| 0 <= i < self.entries().len() && (#[trigger] self.entries()[i]).0 == gpa
    }

    /// An empty table.
    pub fn new() -> (r: BreakpointTable)
        ensures
            r.wf(),
            r.entries() == Seq::<(u64, u8)>::empty(),
    {
        BreakpointTable { entries: Vec::new() }
    }

    /// The original byte installed at `gpa`, if any.
    pub fn lookup(&self, gpa: u64) -> (r: Option<u8>)
        requires
            self.wf(),
        ensures
            r matches Some(b) ==> exists|i: int|
                0 <= i < self.entries().len() && #[trigger] self.entries()[i] == (gpa, b),
            r is None ==> !self.spec_contains(gpa),
            (r is Some) == self.spec_contains(gpa),
    {
        let mut i: usize = 0;
        while i < self.entries.len()
            invariant
                i <= self.entries@.len(),
                forall|j: int| 0 <= j < i ==> (#[trigger] self.entries@[j]).0 != gpa,
            decreases self.entries@.len() - i,
        {
            if self.entries[i].0 == gpa {
                proof {
                    assert((self.entries()[i as int]).0 == gpa);
                    assert(self.entries()[i as int] == (gpa, self.entries@[i as int].1));
                }
                return Some(self.entries[i].1);
            }
            i = i + 1;
        }
        None
    }

    /// Install a swap: record that the byte at `gpa` was `original` before
    /// the breakpoint instruction was patched in.  Refused when a swap is
    /// already installed there, so the original byte is never overwritten.
    pub fn insert(&mut self, gpa: u64, original: u8) -> (r: bool)
        requires
            old(self).wf(),
        ensures
            final(self).wf(),
            r == !old(self).spec_contains(gpa),
            r ==> final(self).entries() == old(self).entries().push((gpa, original)),
            !r ==> *final(self) == *old(self),
    {
        if self.lookup(gpa).is_some() {
            return false;
        }
        self.entries.push((gpa, original));
        proof {
            assert forall|i: int, j: int| 0 <= i < j < self.entries@.len() implies (
            #[trigger] self.entries@[i]).0 != (#[trigger] self.entries@[j]).0 by {
                assert(self.entries@[i] == old(self).entries()[i]);
                if j < self.entries@.len() - 1 {
                    assert(self.entries@[j] == old(self).entries()[j]);
                } else {
                    assert(self.entries@[j] == (gpa, original));
                    assert((old(self).entries()[i]).0 != gpa);
                }
            }
        }
        true
    }

    /// Remove the swap at `gpa`, handing back the original byte to restore.
    /// Without an installed swap nothing changes.
    pub fn remove(&mut self, gpa: u64) -> (r: Option<u8>)
        requires
            old(self).wf(),
        ensures
            final(self).wf(),
            (r is Some) == old(self).spec_contains(gpa),
            r is None ==> *final(self) == *old(self),
            r matches Some(b) ==> exists|i: int|
                0 <= i < old(self).entries().len() && #[trigger] old(self).entries()[i] == (
                gpa,
                b,
            ) && final(self).entries() == old(self).entries().remove(i),
            !final(self).spec_contains(gpa),
    {
        let mut i: usize = 0;
        while i < self.entries.len()
            invariant
                i <= self.entries@.len(),
                *self == *old(self),
                old(self).wf(),
                forall|j: int| 0 <= j < i ==> (#[trigger] self.entries@[j]).0 != gpa,
            decreases self.entries@.len() - i,
        {
            if self.entries[i].0 == gpa {
                proof {
                    assert((old(self).entries()[i as int]).0 == gpa);
                    assert(old(self).spec_contains(gpa));
                }
                let (_, original) = self.entries.remove(i);
                proof {
                    assert(old(self).entries()[i as int] == (gpa, original));
                    assert(self.entries@ == old(self).entries().remove(i as int));
                    assert forall|a: int, b: int|
                        0 <= a < b < self.entries@.len() implies (#[trigger] self.entries@[a]).0
                        != (#[trigger] self.entries@[b]).0 by {
                        if a < i {
                            assert(self.entries@[a] == old(self).entries@[a]);
                        } else {
                            assert(self.entries@[a] == old(self).entries@[a + 1]);
                        }
                        if b < i {
                            assert(self.entries@[b] == old(self).entries@[b]);
                        } else {
                            assert(self.entries@[b] == old(self).entries@[b + 1]);
                        }
                    }
                    assert forall|j: int| 0 <= j < self.entries@.len() implies (
                    #[trigger] self.entries@[j]).0 != gpa by {
                        if j < i {
                            assert(self.entries@[j] == old(self).entries@[j]);
                        } else {
                            assert(self.entries@[j] == old(self).entries@[j + 1]);
                        }
                    }
                }
                return Some(original);
            }
            i = i + 1;
        }
        None
    }
}

} // verus!
