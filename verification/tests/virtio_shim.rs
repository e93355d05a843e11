//! The virtio-net shim's register file.

use uhyve::virtio::{
    VirtioAction, VirtioNetDevice, VIRTIO_HOST_FEATURES, VIRTIO_OFF_FEATURES, VIRTIO_OFF_NOTIFY,
    VIRTIO_OFF_STATUS,
};

#[test]
fn status_handshake_accumulates_and_resets() {
    let mut dev = VirtioNetDevice::new();
    assert_eq!(dev.io_read(VIRTIO_OFF_STATUS), 0);
    assert_eq!(dev.io_write(VIRTIO_OFF_STATUS, 1), VirtioAction::Handled);
    assert_eq!(dev.io_write(VIRTIO_OFF_STATUS, 2), VirtioAction::Handled);
    assert_eq!(dev.io_read(VIRTIO_OFF_STATUS), 3);
    assert_eq!(dev.io_write(VIRTIO_OFF_STATUS, 4), VirtioAction::Handled);
    assert_eq!(dev.io_read(VIRTIO_OFF_STATUS), 7);
    // writing zero resets the handshake
    assert_eq!(dev.io_write(VIRTIO_OFF_STATUS, 0), VirtioAction::Handled);
    assert_eq!(dev.io_read(VIRTIO_OFF_STATUS), 0);
}

#[test]
fn notify_kicks_transmit() {
    let mut dev = VirtioNetDevice::new();
    assert_eq!(dev.io_write(VIRTIO_OFF_NOTIFY, 1), VirtioAction::KickTx);
    // a notify leaves the register file unchanged
    assert_eq!(dev.io_read(VIRTIO_OFF_STATUS), 0);
}

#[test]
fn unknown_registers_read_zero_and_ignore_writes() {
    let mut dev = VirtioNetDevice::new();
    assert_eq!(dev.io_read(VIRTIO_OFF_FEATURES), VIRTIO_HOST_FEATURES);
    assert_eq!(dev.io_read(0x42), 0);
    assert_eq!(dev.io_write(0x42, 0xdead), VirtioAction::Ignored);
    assert_eq!(dev.io_read(VIRTIO_OFF_STATUS), 0);
}
