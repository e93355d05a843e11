//! The hypercall surface of the vCPU loop.
//!
//! The guest requests host services by writing a guest-physical address to
//! one of a set of fixed IO ports; the host classifies the exit by its port,
//! reads a flat argument packet at that address, performs the service, and
//! writes results back in place.  This module holds the port dispatch, the
//! packet marshalling against a byte model of guest memory, the argv/envp
//! forwarding, the network-information reply, and the run-state protocol by
//! which the first vCPU to observe an exit request stops all the others.
//! The actual `run` ioctl, file descriptors and raw guest pages live with
//! the embedding program.

use crate::parse::Ipv4;
use vstd::prelude::*;

verus! {

/// IO port of the `WRITE` hypercall.
pub const UHYVE_PORT_WRITE: u16 = 0x400;

/// IO port of the `OPEN` hypercall.
pub const UHYVE_PORT_OPEN: u16 = 0x440;

/// IO port of the `CLOSE` hypercall.
pub const UHYVE_PORT_CLOSE: u16 = 0x480;

/// IO port of the `READ` hypercall.
pub const UHYVE_PORT_READ: u16 = 0x500;

/// IO port of the `EXIT` hypercall.
pub const UHYVE_PORT_EXIT: u16 = 0x540;

/// IO port of the `LSEEK` hypercall.
pub const UHYVE_PORT_LSEEK: u16 = 0x580;

/// IO port of the `NETINFO` hypercall.
pub const UHYVE_PORT_NETINFO: u16 = 0x600;

/// IO port of the `CMDSIZE` hypercall.
pub const UHYVE_PORT_CMDSIZE: u16 = 0x740;

/// IO port of the `CMDVAL` hypercall.
pub const UHYVE_PORT_CMDVAL: u16 = 0x780;

/// IO port of the `UNLINK` hypercall.
pub const UHYVE_PORT_UNLINK: u16 = 0x840;

/// First IO port of the virtio register window.
pub const VIRTIO_PORT_BASE: u16 = 0xc000;

/// Length of the virtio register window.
pub const VIRTIO_PORT_LEN: u16 = 0x100;

/// Interrupt line of the network device.
pub const UHYVE_IRQ_NET: u32 = 11;

/// What an IO-port exit asks of the host.
#[derive(Clone, Copy, Debug, PartialEq, Eq, Structural)]
pub enum PortRequest {
    /// Write guest bytes to a host file descriptor.
    Write,
    /// Open a host file.
    Open,
    /// Close a host file descriptor.
    Close,
    /// Read host bytes into guest memory.
    Read,
    /// Terminate the whole virtual machine with a guest-supplied code.
    Exit,
    /// Reposition a host file descriptor.
    Lseek,
    /// Report the configured network addresses.
    Netinfo,
    /// Report the argument and environment counts and sizes.
    Cmdsize,
    /// Copy the argument and environment strings into guest buffers.
    Cmdval,
    /// Remove a host file.
    Unlink,
    /// An access to the virtio register window, forwarded to the device.
    Virtio,
    /// No service lives at this port.
    Unknown,
}

/// The dispatch table of the hypercall ports.
pub open spec fn spec_classify_port(port: u16) -> PortRequest {
    if port == UHYVE_PORT_WRITE {
        PortRequest::Write
    } else if port == UHYVE_PORT_OPEN {
        PortRequest::Open
    } else if port == UHYVE_PORT_CLOSE {
        PortRequest::Close
    } else if port == UHYVE_PORT_READ {
        PortRequest::Read
    } else if port == UHYVE_PORT_EXIT {
        PortRequest::Exit
    } else if port == UHYVE_PORT_LSEEK {
        PortRequest::Lseek
    } else if port == UHYVE_PORT_NETINFO {
        PortRequest::Netinfo
    } else if port == UHYVE_PORT_CMDSIZE {
        PortRequest::Cmdsize
    } else if port == UHYVE_PORT_CMDVAL {
        PortRequest::Cmdval
    } else if port == UHYVE_PORT_UNLINK {
        PortRequest::Unlink
    } else if VIRTIO_PORT_BASE <= port < VIRTIO_PORT_BASE + VIRTIO_PORT_LEN {
        PortRequest::Virtio
    } else {
        PortRequest::Unknown
    }
}

/// Classify an IO-port exit by its port number.
pub fn classify_port(port: u16) -> (r: PortRequest)
    ensures
        r == spec_classify_port(port),
{
    if port == UHYVE_PORT_WRITE {
        PortRequest::Write
    } else if port == UHYVE_PORT_OPEN {
        PortRequest::Open
    } else if port == UHYVE_PORT_CLOSE {
        PortRequest::Close
    } else if port == UHYVE_PORT_READ {
        PortRequest::Read
    } else if port == UHYVE_PORT_EXIT {
        PortRequest::Exit
    } else if port == UHYVE_PORT_LSEEK {
        PortRequest::Lseek
    } else if port == UHYVE_PORT_NETINFO {
        PortRequest::Netinfo
    } else if port == UHYVE_PORT_CMDSIZE {
        PortRequest::Cmdsize
    } else if port == UHYVE_PORT_CMDVAL {
        PortRequest::Cmdval
    } else if port == UHYVE_PORT_UNLINK {
        PortRequest::Unlink
    } else if VIRTIO_PORT_BASE <= port && port < VIRTIO_PORT_BASE + VIRTIO_PORT_LEN {
        PortRequest::Virtio
    } else {
        PortRequest::Unknown
    }
}

/// Read `len` guest bytes starting at `gpa` out of the guest-memory image:
/// the payload of the `WRITE` hypercall, handed on to the host descriptor.
/// Out-of-bounds descriptors are refused rather than read.
pub fn read_guest_bytes(guest_mem: &Vec<u8>, gpa: usize, len: usize) -> (r: Option<Vec<u8>>)
    ensures
        (r is Some) <==> gpa + len <= guest_mem@.len(),
        r matches Some(v) ==> v@ == guest_mem@.subrange(gpa as int, gpa + len),
{
    if len > guest_mem.len() || gpa > guest_mem.len() - len {
        return None;
    }
    let mut out: Vec<u8> = Vec::new();
    let mut k: usize = 0;
    while k < len
        invariant
            k <= len,
            gpa + len <= guest_mem@.len(),
            guest_mem@.len() <= usize::MAX,
            out@ == guest_mem@.subrange(gpa as int, gpa + k),
        decreases len - k,
    {
        out.push(guest_mem[gpa + k]);
        proof {
            assert(guest_mem@.subrange(gpa as int, gpa + k + 1) =~= guest_mem@.subrange(
                gpa as int,
                gpa + k,
            ).push(guest_mem@[gpa + k]));
        }
        k = k + 1;
    }
    Some(out)
}

/// Write `bytes` into the guest-memory image at `gpa`: the host's side of a
/// hypercall that fills a guest buffer, such as `CMDVAL`.  An out-of-bounds
/// destination is refused and the image left untouched.
pub fn write_guest_bytes(guest_mem: &mut Vec<u8>, gpa: usize, bytes: &Vec<u8>) -> (r: bool)
    ensures
        r == (gpa + bytes@.len() <= old(guest_mem)@.len()),
        r ==> final(guest_mem)@ == old(guest_mem)@.take(gpa as int) + bytes@ + old(
            guest_mem,
        )@.skip(gpa + bytes@.len()),
        !r ==> final(guest_mem)@ == old(guest_mem)@,
{
    let len = bytes.len();
    if len > guest_mem.len() || gpa > guest_mem.len() - len {
        return false;
    }
    let mut k: usize = 0;
    while k < len
        invariant
            k <= len,
            len == bytes@.len(),
            gpa + len <= guest_mem@.len(),
            guest_mem@.len() <= usize::MAX,
            guest_mem@.len() == old(guest_mem)@.len(),
            forall|j: int| 0 <= j < gpa ==> guest_mem@[j] == old(guest_mem)@[j],
            forall|j: int| 0 <= j < k ==> guest_mem@[gpa + j] == bytes@[j],
            forall|j: int| gpa + k <= j < guest_mem@.len() ==> guest_mem@[j] == old(guest_mem)@[j],
        decreases len - k,
    {
        let idx = gpa + k;
        let mut tmp = bytes[k];
        core::mem::swap(&mut guest_mem[idx], &mut tmp);
        k = k + 1;
    }
    proof {
        assert(guest_mem@ =~= old(guest_mem)@.take(gpa as int) + bytes@ + old(guest_mem)@.skip(
            gpa + bytes@.len(),
        ));
    }
    true
}

/// The reply of the `CMDSIZE` hypercall: how many argument and environment
/// strings will be forwarded and how many bytes each holds, so the guest can
/// size its buffers before `CMDVAL` fills them.
pub struct CmdSizes {
    pub argc: i32,
    pub argsz: Vec<i32>,
    pub envc: i32,
    pub envsz: Vec<i32>,
}

/// Compute the `CMDSIZE` reply for the forwarded argument and environment
/// strings: one count and one exact byte length per string.
pub fn cmdsize(args: &Vec<Vec<u8>>, env: &Vec<Vec<u8>>) -> (r: CmdSizes)
    requires
        args@.len() <= i32::MAX,
        env@.len() <= i32::MAX,
        forall|i: int| 0 <= i < args@.len() ==> #[trigger] args@[i]@.len() <= i32::MAX,
        forall|i: int| 0 <= i < env@.len() ==> #[trigger] env@[i]@.len() <= i32::MAX,
    ensures
        r.argc == args@.len(),
        r.argsz@.len() == args@.len(),
        forall|i: int| 0 <= i < args@.len() ==> #[trigger] r.argsz@[i] == args@[i]@.len(),
        r.envc == env@.len(),
        r.envsz@.len() == env@.len(),
        forall|i: int| 0 <= i < env@.len() ==> #[trigger] r.envsz@[i] == env@[i]@.len(),
{
    let mut argsz: Vec<i32> = Vec::new();
    let mut i: usize = 0;
    while i < args.len()
        invariant
            i <= args@.len(),
            args@.len() <= i32::MAX,
            forall|j: int| 0 <= j < args@.len() ==> #[trigger] args@[j]@.len() <= i32::MAX,
            argsz@.len() == i,
            forall|j: int| 0 <= j < i ==> #[trigger] argsz@[j] == args@[j]@.len(),
        decreases args@.len() - i,
    {
        argsz.push(args[i].len() as i32);
        i = i + 1;
    }
    let mut envsz: Vec<i32> = Vec::new();
    let mut k: usize = 0;
    while k < env.len()
        invariant
            k <= env@.len(),
            env@.len() <= i32::MAX,
            forall|j: int| 0 <= j < env@.len() ==> #[trigger] env@[j]@.len() <= i32::MAX,
            envsz@.len() == k,
            forall|j: int| 0 <= j < k ==> #[trigger] envsz@[j] == env@[j]@.len(),
        decreases env@.len() - k,
    {
        envsz.push(env[k].len() as i32);
        k = k + 1;
    }
    CmdSizes { argc: args.len() as i32, argsz, envc: env.len() as i32, envsz }
}

/// The four octets of an optional address, zero-filled when absent, as the
/// `NETINFO` reply lays them out.
pub open spec fn octets_of(o: Option<Ipv4>) -> Seq<u8> {
    match o {
        Some(i) => seq![i.a, i.b, i.c, i.d],
        None => seq![0u8, 0u8, 0u8, 0u8],
    }
}

/// Push the four octets of an optional address.
fn push_octets(out: &mut Vec<u8>, o: &Option<Ipv4>)
    ensures
        final(out)@ == old(out)@ + octets_of(*o),
{
    match o {
        Some(i) => {
            out.push(i.a);
            out.push(i.b);
            out.push(i.c);
            out.push(i.d);
        },
        None => {
            out.push(0);
            out.push(0);
            out.push(0);
            out.push(0);
        },
    }
    proof {
        assert(out@ =~= old(out)@ + octets_of(*o));
    }
}

/// The `NETINFO` reply: the configured IPv4 address, mask and gateway as
/// twelve bytes, zero where nothing is configured.
pub fn netinfo_reply(ip: &Option<Ipv4>, mask: &Option<Ipv4>, gateway: &Option<Ipv4>) -> (r: Vec<
    u8,
>)
    ensures
        r@ == octets_of(*ip) + octets_of(*mask) + octets_of(*gateway),
        r@.len() == 12,
{
    let mut out: Vec<u8> = Vec::new();
    push_octets(&mut out, ip);
    push_octets(&mut out, mask);
    push_octets(&mut out, gateway);
    proof {
        assert(Seq::<u8>::empty() + octets_of(*ip) =~= octets_of(*ip));
        assert(out@ =~= octets_of(*ip) + octets_of(*mask) + octets_of(*gateway));
    }
    out
}

/// The shared run state of all vCPUs: the published exit code and the stop
/// request the first exiting vCPU raises for the others.
pub struct VmRunState {
    pub exit_code: Option<i32>,
    pub stop_requested: bool,
}

impl VmRunState {
    /// The machine starts running with no exit published.
    pub fn new() -> (r: VmRunState)
        ensures
            r.exit_code is None,
            !r.stop_requested,
    {
        VmRunState { exit_code: None, stop_requested: false }
    }

    /// A vCPU observed the `EXIT` hypercall: publish its code — the first
    /// published code is never overwritten — and request every vCPU to stop
    /// at its next exit.
    pub fn record_exit(&mut self, code: i32)
        ensures
            final(self).stop_requested,
            old(self).exit_code is None ==> final(self).exit_code == Some(code),
            old(self).exit_code is Some ==> final(self).exit_code == old(self).exit_code,
    {
        if self.exit_code.is_none() {
            self.exit_code = Some(code);
        }
        self.stop_requested = true;
    }

    /// A vCPU hit an unknown exit or an internal error: terminate the whole
    /// machine with a non-zero code, unless a code was already published.
    pub fn record_failure(&mut self)
        ensures
            final(self).stop_requested,
            old(self).exit_code is None ==> final(self).exit_code == Some(1i32),
            old(self).exit_code is Some ==> final(self).exit_code == old(self).exit_code,
            old(self).exit_code is None ==> (final(self).exit_code matches Some(c) && c != 0),
    {
        if self.exit_code.is_none() {
            self.exit_code = Some(1);
        }
        self.stop_requested = true;
    }
}

} // verus!
