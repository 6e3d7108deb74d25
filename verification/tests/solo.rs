use focusmute::device::{DeviceError, MockDevice};
use focusmute::led::solo::{
    can_test, label, number_leds, restore_test, test_led, INPUT_1_LED, INPUT_2_LED, WHITE,
};

fn solo_lab_device() -> MockDevice {
    let mut dev = MockDevice::new();
    dev.set_device_name("Scarlett Solo 4th Gen-TEST");
    dev
}

#[test]
fn lab_rejects_unrestorable_lights_and_non_solo_without_writes() {
    let mut dev = MockDevice::new();
    assert!(test_led(&mut dev, 4, WHITE).is_err());
    dev.set_device_name("Scarlett Solo 4th Gen-TEST");
    for index in [0, 1, 2, 3, 5, 20, 24, 25, 26, 27, 31, 255] {
        assert!(test_led(&mut dev, index, WHITE).is_err());
    }
    assert_eq!(dev.descriptor_count(), 0);
    assert!(dev.notifies().is_empty());
}

#[test]
fn restore_never_applies_a_bulk_array_or_changes_audio_modes() {
    let mut dev = MockDevice::new();
    dev.set_device_name("Scarlett Solo 4th Gen-TEST");
    restore_test(&mut dev, &[0, 1]).unwrap();
    assert_eq!(dev.descriptor_count(), 2);
    assert_eq!(dev.descriptor(84), Some(vec![12]));
    assert_eq!(dev.descriptor(80), Some(WHITE.to_le_bytes().to_vec()));
    assert_eq!(*dev.notifies(), vec![8, 8]);
}

#[test]
fn number_leds_keep_order_and_skip_unknown_inputs() {
    assert_eq!(number_leds(&[0, 1]), vec![INPUT_1_LED, INPUT_2_LED]);
    assert_eq!(number_leds(&[1, 7, 0, 2, 1]), vec![12, 4, 12]);
    assert!(number_leds(&[2, 3, usize::MAX]).is_empty());
    assert!(number_leds(&[]).is_empty());
}

#[test]
fn labels_name_the_panel_elements() {
    assert_eq!(label(0), "Air");
    assert_eq!(label(1), "?");
    assert_eq!(label(2), "Inst");
    assert_eq!(label(3), "48V");
    assert_eq!(label(4), "1");
    assert_eq!(label(6), "Halo 1");
    assert_eq!(label(11), "Halo 1");
    assert_eq!(label(12), "2");
    assert_eq!(label(13), "Halo ?");
    assert_eq!(label(19), "Halo 2");
    assert_eq!(label(24), "Output");
    assert_eq!(label(26), "USB");
    assert_eq!(label(27), "Direct");
    assert_eq!(label(31), "Direct");
    assert_eq!(label(30), "?");
    assert_eq!(label(255), "?");
}

#[test]
fn testable_leds_are_the_numbers_and_halos() {
    let testable: Vec<u8> = (0..=255u8).filter(|&i| can_test(i)).collect();
    let mut expected = vec![4];
    expected.extend(6..=19);
    assert_eq!(testable, expected);
}

#[test]
fn test_led_sends_colour_index_and_notify() {
    let mut dev = solo_lab_device();
    test_led(&mut dev, 7, 0x00FF_0000).unwrap();
    assert_eq!(dev.descriptor(80), Some(vec![0x00, 0x00, 0xFF, 0x00]));
    assert_eq!(dev.descriptor(84), Some(vec![7]));
    assert_eq!(*dev.notifies(), vec![8]);
}

#[test]
fn test_led_refusals_name_the_reason() {
    let mut dev = MockDevice::new();
    match test_led(&mut dev, 4, WHITE) {
        Err(DeviceError::UnsupportedDevice(model)) => assert_eq!(model, "Scarlett 2i2 4th Gen"),
        other => panic!("expected an unsupported-device error, got {other:?}"),
    }
    let mut dev = solo_lab_device();
    match test_led(&mut dev, 27, WHITE) {
        Err(DeviceError::TransactFailed(msg)) => {
            assert_eq!(msg, "LED restoration is unverified for this index; test disabled")
        }
        other => panic!("expected a refusal, got {other:?}"),
    }
}

#[test]
fn restore_on_other_model_sends_nothing() {
    let mut dev = MockDevice::new();
    assert!(matches!(
        restore_test(&mut dev, &[0, 1]),
        Err(DeviceError::UnsupportedDevice(_))
    ));
    assert_eq!(dev.descriptor_count(), 0);
    assert!(dev.notifies().is_empty());
}

#[test]
fn restore_of_unknown_inputs_sends_nothing() {
    let mut dev = solo_lab_device();
    restore_test(&mut dev, &[5, 9]).unwrap();
    assert_eq!(dev.descriptor_count(), 0);
    assert!(dev.notifies().is_empty());
}
