//! The legacy virtio-net shim's register file.
//!
//! The guest driver probes a small IO-register window; the vCPU loop routes
//! accesses in that window here.  The shim is deliberately minimal: a device
//! status byte for the driver handshake, a fixed feature word, and a notify
//! register whose write means "the guest filled the transmit ring" — the
//! caller then raises the transmit bridge's wake token.  Frame traffic
//! itself flows through the shared rings, never through these registers.

use vstd::prelude::*;

verus! {

/// Register offset, within the virtio IO window, of the device-status byte.
pub const VIRTIO_OFF_STATUS: u16 = 0x12;

/// Register offset of the queue-notify word.
pub const VIRTIO_OFF_NOTIFY: u16 = 0x10;

/// Register offset of the read-only host-feature word.
pub const VIRTIO_OFF_FEATURES: u16 = 0x00;

/// Features this shim offers the driver: none.
pub const VIRTIO_HOST_FEATURES: u32 = 0;

/// What a guest write to the register window asks the caller to do.
#[derive(Clone, Copy, Debug, PartialEq, Eq, Structural)]
pub enum VirtioAction {
    /// The register file absorbed the write.
    Handled,
    /// The guest kicked the transmit queue: raise the wake token.
    KickTx,
    /// The write touched no live register.
    Ignored,
}

/// The register file of the shim.
pub struct VirtioNetDevice {
    /// The driver-handshake status byte; zero after reset.
    pub status: u8,
}

impl VirtioNetDevice {
    /// A freshly reset device.
    pub fn new() -> (r: VirtioNetDevice)
        ensures
            r.status == 0,
    {
        VirtioNetDevice { status: 0 }
    }

    /// A guest read in the register window: the status byte, the feature
    /// word, and zero for everything else.
    pub fn io_read(&self, offset: u16) -> (r: u32)
        ensures
            offset == VIRTIO_OFF_STATUS ==> r == self.status,
            offset == VIRTIO_OFF_FEATURES ==> r == VIRTIO_HOST_FEATURES,
            offset != VIRTIO_OFF_STATUS && offset != VIRTIO_OFF_FEATURES ==> r == 0,
    {
        if offset == VIRTIO_OFF_STATUS {
            self.status as u32
        } else if offset == VIRTIO_OFF_FEATURES {
            VIRTIO_HOST_FEATURES
        } else {
            0
        }
    }

    /// A guest write in the register window.  A status write of zero resets
    /// the handshake; any other status write accumulates the handshake bits,
    /// as the legacy driver sets them one phase at a time.  A notify write
    /// asks the caller to kick the transmit bridge.
    pub fn io_write(&mut self, offset: u16, value: u32) -> (r: VirtioAction)
        ensures
            offset == VIRTIO_OFF_STATUS && value == 0 ==> final(self).status == 0 && r
                == VirtioAction::Handled,
            offset == VIRTIO_OFF_STATUS && value != 0 ==> final(self).status == (old(self).status
                | (value as u8)) && r == VirtioAction::Handled,
            offset == VIRTIO_OFF_NOTIFY ==> *final(self) == *old(self) && r == VirtioAction::KickTx,
            offset != VIRTIO_OFF_STATUS && offset != VIRTIO_OFF_NOTIFY ==> *final(self) == *old(
                self,
            ) && r == VirtioAction::Ignored,
    {
        if offset == VIRTIO_OFF_STATUS {
            if value == 0 {
                self.status = 0;
            } else {
                self.status = self.status | (value as u8);
            }
            VirtioAction::Handled
        } else if offset == VIRTIO_OFF_NOTIFY {
            VirtioAction::KickTx
        } else {
            VirtioAction::Ignored
        }
    }
}

} // verus!
