//! The virtual machine builder and its handle.
//!
//! [`Uhyve`] gathers everything one guest needs: the guest address space,
//! the vCPU count, the kernel path, the network addresses and the optional
//! debug port.  Construction validates the configuration — bad addresses and
//! a debug stub on a multi-vCPU machine are refused before any vCPU could
//! spawn — and clamps the memory size.  The host-side handles (the VM file
//! descriptor, the interrupt eventfd, the TAP device) belong to the
//! embedding program, which installs the regions this handle computes.

use crate::config::{ConfigError, Parameter};
use crate::mem::{layout_span, spec_clamp, clamp_mem_size, GuestSpace, MemRegion};
use crate::parse::{parse_ipv4, spec_parse_ipv4, Ipv4};
use vstd::prelude::*;

verus! {

/// Guest-physical offset of the receive ring; the transmit ring follows it,
/// aligned up to a cache line.
pub const SHAREDQUEUE_START: u64 = 0x80000;

/// Round `x` up to the next multiple of `align`.
pub fn align_up(x: u64, align: u64) -> (r: u64)
    requires
        align > 0,
        x + align <= u64::MAX,
    ensures
        r % align == 0,
        x <= r < x + align,
{
    let rem = x % align;
    if rem == 0 {
        x
    } else {
        proof {
            vstd::arithmetic::div_mod::lemma_fundamental_div_mod(x as int, align as int);
            vstd::arithmetic::div_mod::lemma_fundamental_div_mod(
                x + (align - rem),
                align as int,
            );
            assert((x + (align - rem) as int) % (align as int) == 0) by {
                vstd::arithmetic::div_mod::lemma_mod_multiples_vanish(
                    x / align + 1,
                    0,
                    align as int,
                );
                assert(x + (align - rem) == (align * (x / align + 1)) + 0) by (nonlinear_arith)
                    requires
                        x == align * (x / align) + rem,
                ;
            }
        }
        x + (align - rem)
    }
}

/// The handshake structure the loader writes into guest memory and the guest
/// fills as it boots; the host reads the entry point and how many vCPUs have
/// come online.
#[derive(Clone, Copy, Debug, PartialEq, Eq, Structural)]
pub struct BootInfo {
    pub entry_point: u64,
    pub cpu_online: u32,
}

/// Whether an optional address text is absent or a well-formed dotted quad.
pub open spec fn addr_ok(o: Option<Vec<u8>>) -> bool {
    match o {
        None => true,
        Some(s) => spec_parse_ipv4(s@) is Some,
    }
}

/// The address an optional address text denotes, if any.
pub open spec fn parsed_addr(o: Option<Vec<u8>>) -> Option<Ipv4> {
    match o {
        None => None,
        Some(s) => spec_parse_ipv4(s@),
    }
}

/// One virtual machine: the guest space plus everything the vCPU loops read.
#[derive(Debug)]
pub struct Uhyve {
    pub mem: GuestSpace,
    pub offset: u64,
    pub entry_point: u64,
    pub num_cpus: u32,
    pub path: String,
    pub boot_info: Option<BootInfo>,
    pub verbose: bool,
    pub ip: Option<Ipv4>,
    pub gateway: Option<Ipv4>,
    pub mask: Option<Ipv4>,
    pub nic: Option<String>,
    pub gdb_port: Option<u16>,
}

impl Uhyve {
    /// Build a virtual machine over a fresh host mapping based at
    /// `host_base`.  The memory size is clamped to the minimum; the address
    /// texts must parse; the debug stub is refused unless exactly one vCPU
    /// is configured.  Nothing is constructed on a refused configuration.
    pub fn new(kernel_path: String, specs: Parameter, host_base: u64) -> (r: Result<
        Uhyve,
        ConfigError,
    >)
        requires
            host_base + layout_span(spec_clamp(specs.mem_size as int)) <= u64::MAX,
        ensures
            (r is Ok) <==> (addr_ok(specs.ip) && addr_ok(specs.gateway) && addr_ok(specs.mask) && (
            specs.gdb_port is None || specs.num_cpus == 1)),
            !addr_ok(specs.ip) ==> r == Err::<Uhyve, ConfigError>(ConfigError::InvalidAddress),
            addr_ok(specs.ip) && !addr_ok(specs.gateway) ==> r == Err::<Uhyve, ConfigError>(
                ConfigError::InvalidAddress,
            ),
            addr_ok(specs.ip) && addr_ok(specs.gateway) && !addr_ok(specs.mask) ==> r == Err::<
                Uhyve,
                ConfigError,
            >(ConfigError::InvalidAddress),
            addr_ok(specs.ip) && addr_ok(specs.gateway) && addr_ok(specs.mask) && !(specs.gdb_port
                is None || specs.num_cpus == 1) ==> r == Err::<Uhyve, ConfigError>(
                ConfigError::GdbWithMultipleCpus,
            ),
            r matches Ok(u) ==> u.mem.wf() && u.mem.host_base == host_base && u.mem.mem_size
                == spec_clamp(specs.mem_size as int) && !u.mem.released && u.offset == 0
                && u.entry_point == 0 && u.num_cpus == specs.num_cpus && u.path == kernel_path
                && u.boot_info is None && u.verbose == specs.verbose && u.ip == parsed_addr(
                specs.ip,
            ) && u.gateway == parsed_addr(specs.gateway) && u.mask == parsed_addr(specs.mask)
                && u.nic == specs.nic && u.gdb_port == specs.gdb_port,
    {
        let Parameter {
            mem_size,
            num_cpus,
            verbose,
            hugepage: _,
            mergeable: _,
            ip,
            gateway,
            mask,
            nic,
            gdb_port,
        } = specs;
        let ip_addr = match &ip {
            Some(s) => {
                match parse_ipv4(s) {
                    Some(a) => Some(a),
                    None => {
                        return Err(ConfigError::InvalidAddress);
                    },
                }
            },
            None => None,
        };
        let gw_addr = match &gateway {
            Some(s) => {
                match parse_ipv4(s) {
                    Some(a) => Some(a),
                    None => {
                        return Err(ConfigError::InvalidAddress);
                    },
                }
            },
            None => None,
        };
        let mask_addr = match &mask {
            Some(s) => {
                match parse_ipv4(s) {
                    Some(a) => Some(a),
                    None => {
                        return Err(ConfigError::InvalidAddress);
                    },
                }
            },
            None => None,
        };
        if !(gdb_port.is_none() || num_cpus == 1) {
            return Err(ConfigError::GdbWithMultipleCpus);
        }
        let (actual_size, _) = clamp_mem_size(mem_size);
        let mem = GuestSpace::new(host_base, actual_size);
        Ok(
            Uhyve {
                mem,
                offset: 0,
                entry_point: 0,
                num_cpus,
                path: kernel_path,
                boot_info: None,
                verbose,
                ip: ip_addr,
                gateway: gw_addr,
                mask: mask_addr,
                nic,
                gdb_port,
            },
        )
    }

    /// Whether the guest kernel log is surfaced.
    pub fn verbose(&self) -> (r: bool)
        ensures
            r == self.verbose,
    {
        self.verbose
    }

    /// Record where the loader placed the kernel image.
    pub fn set_offset(&mut self, offset: u64)
        ensures
            *final(self) == (Uhyve { offset, ..*old(self) }),
    {
        self.offset = offset;
    }

    /// Where the loader placed the kernel image.
    pub fn get_offset(&self) -> (r: u64)
        ensures
            r == self.offset,
    {
        self.offset
    }

    /// Record the guest-virtual entry point the loader reports.
    pub fn set_entry_point(&mut self, entry: u64)
        ensures
            *final(self) == (Uhyve { entry_point: entry, ..*old(self) }),
    {
        self.entry_point = entry;
    }

    /// The guest-virtual entry point.
    pub fn get_entry_point(&self) -> (r: u64)
        ensures
            r == self.entry_point,
    {
        self.entry_point
    }

    /// The configured guest address, if networking is configured.
    pub fn get_ip(&self) -> (r: Option<Ipv4>)
        ensures
            r == self.ip,
    {
        self.ip
    }

    /// The configured gateway address.
    pub fn get_gateway(&self) -> (r: Option<Ipv4>)
        ensures
            r == self.gateway,
    {
        self.gateway
    }

    /// The configured network mask.
    pub fn get_mask(&self) -> (r: Option<Ipv4>)
        ensures
            r == self.mask,
    {
        self.mask
    }

    /// How many vCPUs this machine spawns.
    pub fn num_cpus(&self) -> (r: u32)
        ensures
            r == self.num_cpus,
    {
        self.num_cpus
    }

    /// The guest memory window: host base address and size, the capability
    /// each vCPU and bridge thread receives.
    pub fn guest_mem(&self) -> (r: (u64, u64))
        ensures
            r.0 == self.mem.host_base,
            r.1 == self.mem.mem_size,
    {
        (self.mem.host_base, self.mem.mem_size)
    }

    /// Path of the kernel image to boot.
    pub fn kernel_path(&self) -> (r: &String)
        ensures
            r == self.path,
    {
        &self.path
    }

    /// The memory regions to install for this machine.
    pub fn regions(&self) -> (r: Vec<MemRegion>)
        requires
            self.mem.wf(),
        ensures
            r@ == self.mem.spec_regions(),
    {
        self.mem.regions()
    }

    /// Record the boot-information structure the loader wrote.
    pub fn set_boot_info(&mut self, info: BootInfo)
        ensures
            *final(self) == (Uhyve { boot_info: Some(info), ..*old(self) }),
    {
        self.boot_info = Some(info);
    }

    /// How many vCPUs the guest reports online: zero until the loader has
    /// written the boot information.
    pub fn cpu_online(&self) -> (r: u32)
        ensures
            r == (match self.boot_info {
                None => 0u32,
                Some(b) => b.cpu_online,
            }),
    {
        match &self.boot_info {
            None => 0,
            Some(b) => b.cpu_online,
        }
    }
}

} // verus!
