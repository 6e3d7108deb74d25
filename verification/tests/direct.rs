use focusmute::device::{MockDevice, ScarlettDevice};
use focusmute::direct::{
    is_solo, notification_mask, set_solo_direct_enabled, solo_direct_enabled,
    SOLO_DIRECT_NOTIFY_MASK, SOLO_VIDEO_CALL_NOTIFY_MASK,
};

fn solo_device() -> MockDevice {
    let mut dev = MockDevice::new();
    dev.set_device_name("Scarlett Solo 4th Gen-TEST");
    dev
}

#[test]
fn notification_mask_uses_little_endian_event_bytes() {
    let packet = [0, 0, 0, 0, 0, 0, 0x80, 0];
    assert_eq!(notification_mask(&packet), Some(SOLO_DIRECT_NOTIFY_MASK));
    assert_eq!(notification_mask(&packet[..7]), None);
}

#[test]
fn set_direct_uses_solo_parameter_buffer() {
    let mut dev = solo_device();
    set_solo_direct_enabled(&mut dev, true).unwrap();

    assert_eq!(dev.descriptor(217), Some(vec![0]));
    assert_eq!(dev.descriptor(216), Some(vec![1]));
    assert_eq!(dev.notifies().as_slice(), &[12]);
}

#[test]
fn direct_write_is_ignored_for_non_solo() {
    let mut dev = MockDevice::new();
    set_solo_direct_enabled(&mut dev, true).unwrap();
    assert_eq!(dev.descriptor_count(), 0);
    assert!(dev.notifies().is_empty());
}

#[test]
fn notification_mask_reads_only_bytes_four_to_eight() {
    let mut packet = vec![0xAA, 0xBB, 0xCC, 0xDD];
    packet.extend_from_slice(&SOLO_VIDEO_CALL_NOTIFY_MASK.to_le_bytes());
    packet.extend_from_slice(&[0xEE, 0xFF]);
    assert_eq!(notification_mask(&packet), Some(SOLO_VIDEO_CALL_NOTIFY_MASK));
    assert_eq!(notification_mask(&[1, 2, 3, 4, 0x78, 0x56, 0x34, 0x12]), Some(0x1234_5678));
    assert_eq!(notification_mask(&[]), None);
}

#[test]
fn set_direct_off_writes_zero_to_parameter_buffer() {
    let mut dev = solo_device();
    set_solo_direct_enabled(&mut dev, false).unwrap();
    assert_eq!(dev.descriptor(217), Some(vec![0]));
    assert_eq!(dev.descriptor(216), Some(vec![0]));
    assert_eq!(dev.descriptor(264), None);
    assert_eq!(dev.descriptor_count(), 2);
    assert_eq!(dev.notifies().as_slice(), &[12]);
}

#[test]
fn solo_model_is_matched_without_ascii_case() {
    let mut dev = MockDevice::new();
    assert!(!is_solo(&dev));
    dev.set_device_name("scarlett SOLO 4th gen-0001");
    assert!(is_solo(&dev));
    dev.set_device_name("Scarlett Solo 4th Gen");
    assert!(is_solo(&dev));
    dev.set_device_name("Scarlett Solo 4th Gen2-0001");
    assert!(!is_solo(&dev));
    assert_eq!(dev.info().model(), "Scarlett Solo 4th Gen2");
}

#[test]
fn direct_state_is_read_from_descriptor_264() {
    let mut dev = solo_device();
    assert_eq!(solo_direct_enabled(&mut dev).unwrap(), false);
    dev.set_descriptor(264, &[1]).unwrap();
    assert_eq!(solo_direct_enabled(&mut dev).unwrap(), true);
    dev.set_descriptor(264, &[]).unwrap();
    assert_eq!(solo_direct_enabled(&mut dev).unwrap(), false);
}

#[test]
fn mock_read_returns_latest_write_or_zeros() {
    let mut dev = MockDevice::new();
    assert_eq!(dev.get_descriptor(72, 3).unwrap(), vec![0, 0, 0]);
    dev.set_descriptor(72, &[5, 6]).unwrap();
    dev.set_descriptor(72, &[7]).unwrap();
    dev.set_descriptor(73, &[9]).unwrap();
    assert_eq!(dev.get_descriptor(72, 1).unwrap(), vec![7]);
    assert_eq!(dev.descriptor_count(), 2);
}
