//! Guest-physical memory layout.
//!
//! The guest sees a contiguous physical address space backed by one host
//! mapping, except for a hard-coded MMIO hole just below the 4 GiB boundary:
//! accesses there have no host backing and cause VM exits.  When the guest
//! RAM does not fit below the hole, a second region continues above 4 GiB,
//! so the hole is preserved.  The host mapping itself (anonymous mmap,
//! madvise, munmap) is performed by the embedding program; this module owns
//! the layout arithmetic, the address translation and the release accounting.

use vstd::prelude::*;

verus! {

/// Size of the MMIO hole below the 4 GiB boundary.
pub const MMIO_HOLE_SIZE: u64 = 768 * 1024 * 1024;

/// End of the MMIO hole: the 4 GiB boundary.
pub const MMIO_HOLE_END: u64 = 4 * 1024 * 1024 * 1024;

/// First guest-physical address of the MMIO hole.
pub const MMIO_HOLE_START: u64 = MMIO_HOLE_END - MMIO_HOLE_SIZE;

/// Smallest guest RAM size the hypervisor accepts; smaller requests are clamped.
pub const MIN_GUEST_SIZE: u64 = 16 * 1024 * 1024;

/// Guest RAM size used when none is requested.
pub const DEFAULT_GUEST_SIZE: u64 = 64 * 1024 * 1024;

/// Whether a guest-physical address falls inside the MMIO hole.
pub open spec fn in_mmio_hole(gpa: int) -> bool {
    MMIO_HOLE_START <= gpa < MMIO_HOLE_END
}

/// Highest guest-physical address (exclusive) backed by host memory: when the
/// RAM does not fit below the hole, the backing continues above 4 GiB and the
/// addressable span grows by the hole size.
pub open spec fn layout_span(mem_size: int) -> int {
    if mem_size <= MMIO_HOLE_START {
        mem_size
    } else {
        mem_size + MMIO_HOLE_SIZE
    }
}

/// Compute the backed span for a guest RAM size: how many bytes of host
/// address space the mapping needs so the layout of [`layout_span`] fits.
pub fn backing_span(mem_size: u64) -> (r: u64)
    requires
        mem_size + MMIO_HOLE_SIZE <= u64::MAX,
    ensures
        r == layout_span(mem_size as int),
{
    if mem_size <= MMIO_HOLE_START {
        mem_size
    } else {
        mem_size + MMIO_HOLE_SIZE
    }
}

/// The guest RAM size actually used for a requested one: raised to the
/// minimum when the request is below it.
pub open spec fn spec_clamp(requested: int) -> int {
    if requested < MIN_GUEST_SIZE {
        MIN_GUEST_SIZE as int
    } else {
        requested
    }
}

/// Clamp a requested guest RAM size to the supported minimum.
///
/// Returns the actual size and whether the request was raised (so the caller
/// can warn the user).
pub fn clamp_mem_size(requested: u64) -> (r: (u64, bool))
    ensures
        r.0 == spec_clamp(requested as int),
        r.1 == (requested < MIN_GUEST_SIZE),
        r.0 >= MIN_GUEST_SIZE,
{
    if requested < MIN_GUEST_SIZE {
        (MIN_GUEST_SIZE, true)
    } else {
        (requested, false)
    }
}

/// One guest memory region to be installed into the virtual machine, in the
/// shape the host virtualization interface takes: a slot number, a
/// guest-physical base, a length, and the host virtual base backing it.
#[derive(Clone, Copy, Debug, PartialEq, Eq, Structural)]
pub struct MemRegion {
    pub slot: u32,
    pub guest_phys_addr: u64,
    pub memory_size: u64,
    pub userspace_addr: u64,
}

/// Whether `region` backs the guest-physical address `gpa`.
pub open spec fn region_covers(region: MemRegion, gpa: int) -> bool {
    region.guest_phys_addr <= gpa < region.guest_phys_addr + region.memory_size
}

/// Whether some region of `regions` backs `gpa`.
pub open spec fn covered_by(regions: Seq<MemRegion>, gpa: int) -> bool {
    exists|i: int| 0 <= i < regions.len() && #[trigger] region_covers(regions[i], gpa)
}

/// Host virtual address that `region` assigns to the guest-physical `gpa`.
pub open spec fn region_host_addr(region: MemRegion, gpa: int) -> int {
    region.userspace_addr + (gpa - region.guest_phys_addr)
}

/// The guest address space: a host mapping of `mem_size` bytes windowed into
/// guest-physical addresses around the MMIO hole.  `host_base` is the host
/// virtual address of the mapping; `released` records whether the mapping has
/// already been handed back, so teardown can never free it twice.
#[derive(Debug)]
pub struct GuestSpace {
    pub host_base: u64,
    pub mem_size: u64,
    pub released: bool,
}

impl GuestSpace {
    /// The sizes and addresses a well-formed guest space keeps to: at least
    /// the minimum RAM, and a host window whose top does not overflow.
    pub open spec fn wf(self) -> bool {
        &&& self.mem_size >= MIN_GUEST_SIZE
        &&& self.host_base + layout_span(self.mem_size as int) <= u64::MAX
    }

    /// Wrap a fresh host mapping of `mem_size` bytes based at `host_base`.
    pub fn new(host_base: u64, mem_size: u64) -> (r: GuestSpace)
        requires
            mem_size >= MIN_GUEST_SIZE,
            host_base + layout_span(mem_size as int) <= u64::MAX,
        ensures
            r.wf(),
            r.host_base == host_base,
            r.mem_size == mem_size,
            !r.released,
    {
        GuestSpace { host_base, mem_size, released: false }
    }

    /// The regions this space installs: one region when the RAM fits below
    /// the MMIO hole, else one below the hole and one above the 4 GiB
    /// boundary, so that the hole itself stays unbacked.
    pub open spec fn spec_regions(self) -> Seq<MemRegion> {
        if self.mem_size <= MMIO_HOLE_START {
            seq![
                MemRegion {
                    slot: 0,
                    guest_phys_addr: 0,
                    memory_size: self.mem_size,
                    userspace_addr: self.host_base,
                },
            ]
        } else {
            seq![
                MemRegion {
                    slot: 0,
                    guest_phys_addr: 0,
                    memory_size: MMIO_HOLE_START,
                    userspace_addr: self.host_base,
                },
                MemRegion {
                    slot: 1,
                    guest_phys_addr: MMIO_HOLE_END,
                    memory_size: (self.mem_size - MMIO_HOLE_START) as u64,
                    userspace_addr: (self.host_base + MMIO_HOLE_END) as u64,
                },
            ]
        }
    }

    /// Compute the memory regions to install for this space.
    pub fn regions(&self) -> (r: Vec<MemRegion>)
        requires
            self.wf(),
        ensures
            r@ == self.spec_regions(),
    {
        let mut r: Vec<MemRegion> = Vec::new();
        if self.mem_size <= MMIO_HOLE_START {
            r.push(MemRegion {
                slot: 0,
                guest_phys_addr: 0,
                memory_size: self.mem_size,
                userspace_addr: self.host_base,
            });
        } else {
            r.push(MemRegion {
                slot: 0,
                guest_phys_addr: 0,
                memory_size: MMIO_HOLE_START,
                userspace_addr: self.host_base,
            });
            r.push(MemRegion {
                slot: 1,
                guest_phys_addr: MMIO_HOLE_END,
                memory_size: self.mem_size - MMIO_HOLE_START,
                userspace_addr: self.host_base + MMIO_HOLE_END,
            });
        }
        proof {
            assert(r@ =~= self.spec_regions());
        }
        r
    }

    /// Translate a guest-physical address into the host virtual address that
    /// backs it.  Only addresses inside the backed span and outside the MMIO
    /// hole translate; every such address maps at a fixed offset.
    pub fn translate(&self, gpa: u64) -> (r: u64)
        requires
            self.wf(),
            gpa < layout_span(self.mem_size as int),
            !in_mmio_hole(gpa as int),
        ensures
            r == self.host_base + gpa,
    {
        self.host_base + gpa
    }

    /// Mark the space released.  Returns whether the host mapping must be
    /// unmapped now: true exactly on the first call, so the caller frees the
    /// mapping once and teardown is idempotent.
    pub fn release(&mut self) -> (must_unmap: bool)
        ensures
            final(self).released,
            final(self).host_base == old(self).host_base,
            final(self).mem_size == old(self).mem_size,
            must_unmap == !old(self).released,
    {
        let was_released = self.released;
        self.released = true;
        !was_released
    }
}

/// The installed regions back exactly the guest-physical addresses below the
/// layout span and outside the MMIO hole, and every backed address translates
/// to the host base plus the address itself.
pub proof fn lemma_regions_cover_exactly(s: GuestSpace)
    requires
        s.wf(),
    ensures
        forall|gpa: int|
            #[trigger] covered_by(s.spec_regions(), gpa) <==> (0 <= gpa < layout_span(
                s.mem_size as int,
            ) && !in_mmio_hole(gpa)),
        forall|gpa: int, i: int|
            0 <= i < s.spec_regions().len() && #[trigger] region_covers(
                s.spec_regions()[i],
                gpa,
            ) ==> region_host_addr(s.spec_regions()[i], gpa) == s.host_base + gpa,
{
    let rs = s.spec_regions();
    assert forall|gpa: int|
        (0 <= gpa < layout_span(s.mem_size as int) && !in_mmio_hole(gpa)) implies #[trigger]
    covered_by(rs, gpa) by {
        if s.mem_size <= MMIO_HOLE_START {
            assert(region_covers(rs[0], gpa));
        } else {
            if gpa < MMIO_HOLE_START {
                assert(region_covers(rs[0], gpa));
            } else {
                assert(region_covers(rs[1], gpa));
            }
        }
    }
}

} // verus!
