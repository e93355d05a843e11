//! Core of a minimal type-2 hypervisor that boots a single unikernel guest.
//!
//! The crate holds the verified logic of the hypervisor: the guest-physical
//! memory layout with its 32-bit MMIO hole, the single-producer/single-consumer
//! packet ring shared with the guest, the configuration record and its
//! resolution rules, and the hypercall dispatch of the vCPU loop.  The host
//! kernel's virtualization interface, the TAP device and all raw memory access
//! sit outside, behind the plain-value seams these modules define.


pub mod config;
pub mod debug;
pub mod hypercall;
pub mod mem;
pub mod parse;
pub mod ring;
pub mod virtio;
pub mod vm;
