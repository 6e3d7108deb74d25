use focusmute::device::{DeviceError, MockDevice, ScarlettDevice};
use focusmute::led::solo::can_test;
use focusmute::led_lab::{
    close_led_lab, led_lab_next, led_lab_reset, led_lab_single, led_lab_snapshot, mark_touched,
    next_test_index, read_led_snapshot, snapshot_text_of,
};

fn reference_snapshot(mode: &[u8], direct: &[u8], values: &[u8], air: &[u8]) -> String {
    let mut text = format!(
        "READ ONLY: mode[72]={mode:02X?}; Air[62]={air:02X?}; Direct[264]={direct:02X?}\nCommand buffer (NOT measured panel colours), slots[88]:"
    );
    for (index, raw) in values.chunks_exact(4).enumerate() {
        let color = u32::from_le_bytes(raw.try_into().unwrap());
        text.push_str(&format!(" {index}={color:#010X}"));
    }
    text
}

#[test]
fn next_led_cycles_through_testable_leds() {
    let mut seen = vec![4u8];
    let mut index = 4u8;
    for _ in 0..14 {
        index = next_test_index(index);
        assert!(can_test(index));
        seen.push(index);
    }
    assert_eq!(next_test_index(index), 4);
    let mut expected = vec![4u8];
    expected.extend(6..=19);
    assert_eq!(seen, expected);
    for index in 0..=255u8 {
        assert!(can_test(next_test_index(index)));
    }
}

#[test]
fn snapshot_text_matches_std_formatting() {
    let values: Vec<u8> = (0..128u32).map(|i| (i * 37 % 256) as u8).collect();
    for (mode, direct, values, air) in [
        (vec![2u8], vec![0u8], values.clone(), vec![1u8]),
        (vec![], vec![0xAB, 0x0C], vec![0xFF, 0, 0, 0x10, 7, 7], vec![0x5A]),
        (vec![0], vec![1], vec![], vec![]),
    ] {
        assert_eq!(
            snapshot_text_of(&mode, &direct, &values, &air),
            reference_snapshot(&mode, &direct, &values, &air)
        );
    }
}

fn solo() -> MockDevice {
    let mut dev = MockDevice::new();
    dev.set_device_name("Scarlett Solo 4th Gen-TEST");
    dev
}

#[test]
fn snapshot_reads_a_solo_without_writing() {
    let mut dev = solo();
    let slots: Vec<u8> = (0..128u32).map(|i| (255 - i) as u8).collect();
    dev.set_descriptor(88, &slots).unwrap();
    dev.set_descriptor(72, &[3]).unwrap();
    dev.set_descriptor(264, &[1]).unwrap();
    let before = dev.descriptor_count();
    let text = read_led_snapshot(&mut dev).unwrap();
    assert_eq!(text, reference_snapshot(&[3], &[1], &slots, &[0]));
    assert!(text.starts_with("READ ONLY: mode[72]=[03]; Air[62]=[00]; Direct[264]=[01]"));
    assert!(text.ends_with(" 31=0x80818283"), "{text}");
    let mut device = Some(dev);
    assert_eq!(led_lab_snapshot(&mut device), text);
    let dev = device.unwrap();
    assert_eq!(dev.descriptor_count(), before);
    assert!(dev.notifies().is_empty());
}

#[test]
fn lab_texts_for_missing_or_other_devices() {
    let mut none: Option<MockDevice> = None;
    assert_eq!(led_lab_snapshot(&mut none), "Error: The Scarlett device is not available.");
    assert_eq!(led_lab_reset(&mut none, 2, 0), "Error: The Scarlett device is not available.");
    assert_eq!(
        led_lab_single(&mut none, 4, Ok(0xFF00_0000)),
        "Error: The Scarlett device is not available."
    );
    let mut other = Some(MockDevice::new());
    let refusal = "Error: LED Lab is available only for Scarlett Solo 4th Gen.";
    assert_eq!(led_lab_snapshot(&mut other), refusal);
    assert_eq!(led_lab_reset(&mut other, 2, 0), refusal);
    assert_eq!(led_lab_single(&mut other, 4, Ok(0xFF00_0000)), refusal);
    let other = other.unwrap();
    assert_eq!(other.descriptor_count(), 0);
    assert!(other.notifies().is_empty());
}

#[test]
fn reset_restores_the_selected_numbers() {
    let mut device = Some(solo());
    assert_eq!(
        led_lab_reset(&mut device, 2, 2),
        "Selected channel numbers restored to white; DATA_NOTIFY(8). Bulk array unchanged."
    );
    let dev = device.as_ref().unwrap();
    assert_eq!(dev.descriptor(84), Some(vec![12]));
    assert_eq!(dev.descriptor(80), Some(0xFFFF_FF00u32.to_le_bytes().to_vec()));
    assert_eq!(*dev.notifies(), vec![8]);
    led_lab_reset(&mut device, 2, 0);
    let dev = device.as_ref().unwrap();
    assert_eq!(dev.descriptor(84), Some(vec![12]));
    assert_eq!(*dev.notifies(), vec![8, 8, 8]);
}

#[test]
fn single_test_texts() {
    let mut device = Some(solo());
    let color = 0xFF00_0000u32;
    assert_eq!(
        led_lab_single(&mut device, 4, Ok(color)),
        format!("Single LED: color=80, index=84 ({}), DATA_NOTIFY(8), color={color:#010X}.", 4)
    );
    assert_eq!(
        led_lab_single(&mut device, 12, Ok(0x1234)),
        "Single LED: color=80, index=84 (12), DATA_NOTIFY(8), color=0x00001234."
    );
    assert_eq!(
        led_lab_single(&mut device, 27, Ok(color)),
        "Error: Transaction failed: LED restoration is unverified for this index; test disabled"
    );
    assert_eq!(
        led_lab_single(&mut device, 4, Err("invalid color".to_string())),
        "Error: invalid color"
    );
    let dev = device.unwrap();
    assert_eq!(*dev.notifies(), vec![8, 8]);
    assert_eq!(dev.descriptor(84), Some(vec![12]));
}

#[test]
fn touched_numbers_are_restored_on_close() {
    assert!(!mark_touched(false, 7));
    assert!(mark_touched(false, 4));
    assert!(mark_touched(false, 12));
    assert!(mark_touched(true, 7));
    let mut device = Some(solo());
    close_led_lab(false, &mut device, 2, 0).unwrap();
    assert!(device.as_ref().unwrap().notifies().is_empty());
    close_led_lab(true, &mut device, 2, 0).unwrap();
    assert_eq!(*device.as_ref().unwrap().notifies(), vec![8, 8]);
    let mut none: Option<MockDevice> = None;
    close_led_lab(true, &mut none, 2, 0).unwrap();
    assert!(none.is_none());
}

#[test]
fn device_errors_have_texts() {
    assert_eq!(
        DeviceError::UnsupportedDevice("Scarlett 2i2 4th Gen".into()).message(),
        "Unsupported device: Scarlett 2i2 4th Gen"
    );
    assert_eq!(DeviceError::TransactFailed("x".into()).message(), "Transaction failed: x");
}

#[test]
fn next_led_resets_steps_and_tests() {
    let mut device = Some(solo());
    let (index, touched, text) = led_lab_next(&mut device, 4, false, 2, 1, Ok(0xFF00_0000));
    assert_eq!(index, 6);
    assert!(!touched);
    assert_eq!(text, "Single LED: color=80, index=84 (6), DATA_NOTIFY(8), color=0xFF000000.");
    let dev = device.as_ref().unwrap();
    assert_eq!(dev.descriptor(84), Some(vec![6]));
    assert_eq!(*dev.notifies(), vec![8, 8]);
    let (index, touched, _) = led_lab_next(&mut device, 11, false, 2, 1, Ok(0xFF00_0000));
    assert_eq!(index, 12);
    assert!(touched);
    let (index, _, text) = led_lab_next(&mut device, 19, true, 2, 1, Err("bad".into()));
    assert_eq!(index, 4);
    assert_eq!(text, "Error: bad");
}
