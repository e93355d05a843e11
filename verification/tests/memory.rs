//! Guest-memory layout: region coverage, clamping, translation, teardown.

use uhyve::config::{resolve_mem_size, ConfigError};
use uhyve::mem::{
    clamp_mem_size, GuestSpace, DEFAULT_GUEST_SIZE, MIN_GUEST_SIZE, MMIO_HOLE_END, MMIO_HOLE_SIZE,
    MMIO_HOLE_START,
};

const MIB: u64 = 1024 * 1024;
const GIB: u64 = 1024 * MIB;
const HOST_BASE: u64 = 0x7f00_0000_0000;

/// Check that the regions of `mem_size` exactly cover `[0, span)` minus the
/// hole, mapping every covered address to `HOST_BASE + gpa`.
fn check_layout(mem_size: u64) {
    let space = GuestSpace::new(HOST_BASE, mem_size);
    let regions = space.regions();
    if mem_size <= MMIO_HOLE_START {
        assert_eq!(regions.len(), 1);
        assert_eq!(regions[0].slot, 0);
        assert_eq!(regions[0].guest_phys_addr, 0);
        assert_eq!(regions[0].memory_size, mem_size);
        assert_eq!(regions[0].userspace_addr, HOST_BASE);
    } else {
        assert_eq!(regions.len(), 2);
        assert_eq!(regions[0].slot, 0);
        assert_eq!(regions[0].guest_phys_addr, 0);
        assert_eq!(regions[0].memory_size, MMIO_HOLE_START);
        assert_eq!(regions[0].userspace_addr, HOST_BASE);
        assert_eq!(regions[1].slot, 1);
        assert_eq!(regions[1].guest_phys_addr, MMIO_HOLE_END);
        assert_eq!(regions[1].memory_size, mem_size - MMIO_HOLE_START);
        assert_eq!(regions[1].userspace_addr, HOST_BASE + MMIO_HOLE_END);
        // the two regions together back exactly mem_size bytes
        assert_eq!(regions[0].memory_size + regions[1].memory_size, mem_size);
    }
    // no region backs the hole
    for r in &regions {
        let end = r.guest_phys_addr + r.memory_size;
        assert!(end <= MMIO_HOLE_START || r.guest_phys_addr >= MMIO_HOLE_END);
    }
}

#[test]
fn layout_16_mib() {
    check_layout(16 * MIB);
}

#[test]
fn layout_256_mib() {
    check_layout(256 * MIB);
}

#[test]
fn layout_2_gib() {
    check_layout(2 * GIB);
}

#[test]
fn layout_4_gib() {
    check_layout(4 * GIB);
}

#[test]
fn layout_8_gib() {
    check_layout(8 * GIB);
}

#[test]
fn hole_constants() {
    assert_eq!(MMIO_HOLE_SIZE, 768 * MIB);
    assert_eq!(MMIO_HOLE_END, 4 * GIB);
    assert_eq!(MMIO_HOLE_START, 4 * GIB - 768 * MIB);
}

#[test]
fn clamp_raises_small_requests() {
    let (size, warned) = clamp_mem_size(1 * MIB);
    assert_eq!(size, 16 * MIB);
    assert!(warned);
}

#[test]
fn clamp_keeps_large_requests() {
    let (size, warned) = clamp_mem_size(64 * MIB);
    assert_eq!(size, 64 * MIB);
    assert!(!warned);
}

#[test]
fn resolve_mem_size_clamps_and_warns() {
    // a 1 MiB request is raised to the 16 MiB minimum, with a warning
    let r = resolve_mem_size(&Some("1 MiB".to_string()));
    assert_eq!(r, Ok((16 * MIB, true)));
}

#[test]
fn resolve_mem_size_default() {
    let r = resolve_mem_size(&None);
    assert_eq!(r, Ok((DEFAULT_GUEST_SIZE, false)));
    assert_eq!(DEFAULT_GUEST_SIZE, 64 * MIB);
    assert_eq!(MIN_GUEST_SIZE, 16 * MIB);
}

#[test]
fn resolve_mem_size_parses_suffixes() {
    assert_eq!(resolve_mem_size(&Some("256 MiB".to_string())), Ok((256 * MIB, false)));
    assert_eq!(resolve_mem_size(&Some("2 GiB".to_string())), Ok((2 * GIB, false)));
    // a plain count of bytes is taken as such (then clamped)
    assert_eq!(resolve_mem_size(&Some("33554432".to_string())), Ok((32 * MIB, false)));
}

#[test]
fn resolve_mem_size_rejects_garbage() {
    assert_eq!(resolve_mem_size(&Some("lots".to_string())), Err(ConfigError::InvalidMemSize));
}

#[test]
fn translate_is_base_plus_offset() {
    let space = GuestSpace::new(HOST_BASE, 8 * GIB);
    assert_eq!(space.translate(0), HOST_BASE);
    assert_eq!(space.translate(0x1000), HOST_BASE + 0x1000);
    assert_eq!(space.translate(MMIO_HOLE_START - 1), HOST_BASE + MMIO_HOLE_START - 1);
    // above the hole the identity offset still holds
    assert_eq!(space.translate(MMIO_HOLE_END), HOST_BASE + MMIO_HOLE_END);
}

#[test]
fn release_is_idempotent() {
    // the first release must unmap, the second must not: nothing is freed twice
    let mut space = GuestSpace::new(HOST_BASE, 16 * MIB);
    assert!(space.release());
    assert!(!space.release());
    assert!(!space.release());
}
