use focusmute::settings_dialog::{
    active_input_indices, apply_message, captured_hotkey, dialog_indicator_fields,
    solo_mute_input_items, CaptureTarget, HotkeyFields, BlinkFields, MeterAction, MeterState,
    form_check, pressed_keys_hotkey, registered_hotkey_id, clear_stale_errors, mute_input_items,
    chosen_color_text, stored_ptt_hotkey, ColorDirty, DialogMessages, ApplyOutcome, hotkey_errors, parse_browser_sync_port,
    pressed_hotkey, sensitivity_text, virtual_key_name, TALK_SENSITIVITY_PRESETS,
};

#[test]
fn sensitivity_presets_are_valid_and_ordered() {
    // All presets within the 12-bit meter range, and "higher sensitivity"
    // means a strictly lower threshold.
    let values: Vec<u32> = TALK_SENSITIVITY_PRESETS.iter().map(|(_, v)| *v).collect();
    assert!(values.iter().all(|&v| v <= 4095));
    assert!(values.windows(2).all(|w| w[0] > w[1]));
    // The Medium preset is the shipped default.
    assert!(TALK_SENSITIVITY_PRESETS.contains(&("Medium", 250)));
}

#[test]
fn sensitivity_text_names_presets_and_preserves_custom() {
    assert_eq!(sensitivity_text(500), "Low");
    assert_eq!(sensitivity_text(250), "Medium");
    assert_eq!(sensitivity_text(100), "High");
    assert_eq!(sensitivity_text(300), "Custom (300)");
}

#[test]
fn sensitivity_text_renders_any_custom_threshold() {
    assert_eq!(sensitivity_text(0), "Custom (0)");
    assert_eq!(sensitivity_text(9), "Custom (9)");
    assert_eq!(sensitivity_text(10), "Custom (10)");
    assert_eq!(sensitivity_text(4095), "Custom (4095)");
    assert_eq!(sensitivity_text(u32::MAX), "Custom (4294967295)");
}

#[test]
fn active_inputs_follow_the_combo() {
    assert_eq!(active_input_indices(2, 0), vec![0, 1]);
    assert_eq!(active_input_indices(2, 1), vec![0]);
    assert_eq!(active_input_indices(2, 2), vec![1]);
    assert_eq!(active_input_indices(2, 3), vec![0, 1]);
    assert_eq!(active_input_indices(1, 2), vec![1]);
    assert_eq!(active_input_indices(0, 5), Vec::<usize>::new());
    assert_eq!(active_input_indices(4, 5), vec![0, 1, 2, 3]);
    assert_eq!(active_input_indices(usize::MAX, usize::MAX), vec![usize::MAX - 1]);
}

#[test]
fn browser_sync_port_parses_trimmed_numbers() {
    assert_eq!(parse_browser_sync_port("9736"), Ok(9736));
    assert_eq!(parse_browser_sync_port("  9736\t"), Ok(9736));
    assert_eq!(parse_browser_sync_port("+80"), Ok(80));
    assert_eq!(parse_browser_sync_port("0009736"), Ok(9736));
    assert_eq!(parse_browser_sync_port("65535"), Ok(65535));
}

#[test]
fn browser_sync_port_blank_or_zero_is_disabled() {
    assert_eq!(parse_browser_sync_port(""), Ok(0));
    assert_eq!(parse_browser_sync_port("   "), Ok(0));
    assert_eq!(parse_browser_sync_port("\u{3000}\n"), Ok(0));
    assert_eq!(parse_browser_sync_port("0"), Ok(0));
}

#[test]
fn browser_sync_port_rejects_non_numbers() {
    let err = parse_browser_sync_port("abc").unwrap_err();
    assert_eq!(
        err,
        "Invalid browser sync port \"abc\". Enter a number (0 = disabled, e.g. 9736)"
    );
    for bad in ["65536", "-1", "+", "12 34", "99999999999999999999", "٣"] {
        let err = parse_browser_sync_port(bad).unwrap_err();
        assert!(err.contains("browser sync port"), "{bad}: {err}");
        assert!(err.contains(bad), "{bad}: {err}");
    }
    let err = parse_browser_sync_port(" x ").unwrap_err();
    assert!(err.contains("\" x \""), "{err}");
}

#[test]
fn valid_hotkeys_give_no_error() {
    for hk in ["Ctrl+Shift+M", "Alt+F1", "F12", "Ctrl+M"] {
        assert!(hotkey_errors(hk, "").is_empty(), "hotkey '{hk}' should be valid");
    }
    assert!(hotkey_errors("Ctrl+Shift+M", "Ctrl+Space").is_empty());
}

#[test]
fn invalid_hotkey_is_reported_with_examples() {
    let errs = hotkey_errors("Ctrl+Blah", "");
    assert_eq!(errs, vec!["Invalid hotkey. Examples: Ctrl+Shift+M, Alt+F1".to_string()]);
    let errs = hotkey_errors("Not+A+Real+Key", "");
    assert!(errs[0].contains("Examples") && errs[0].contains("Ctrl+Shift+M"));
}

#[test]
fn blank_toggle_hotkey_is_left_to_the_config_check() {
    assert!(hotkey_errors("", "").is_empty());
    assert!(hotkey_errors("   ", "").is_empty());
}

#[test]
fn push_to_talk_errors() {
    let errs = hotkey_errors("Ctrl+Shift+M", "Not+A+Real+Key");
    assert_eq!(
        errs,
        vec!["Invalid push-to-talk hotkey. Examples: Ctrl+Space, Alt+F2".to_string()]
    );
    let errs = hotkey_errors("Ctrl+Shift+M", "Ctrl+Shift+M");
    assert_eq!(
        errs,
        vec!["Push-to-talk hotkey must be different from the toggle hotkey.".to_string()]
    );
    let errs = hotkey_errors("Ctrl+Shift+M", "Shift+Ctrl+M");
    assert!(errs.iter().any(|e| e.contains("different")), "{errs:?}");
    let errs = hotkey_errors("Ctrl+Blah", "Ctrl+Blah");
    assert_eq!(errs.len(), 2);
    assert!(errs[1].contains("push-to-talk"));
}

#[test]
fn blank_push_to_talk_means_disabled() {
    assert!(hotkey_errors("Ctrl+Shift+M", "").is_empty());
    assert!(hotkey_errors("Ctrl+Shift+M", "   ").is_empty());
    assert!(hotkey_errors(" Ctrl+Shift+M ", " Ctrl+Space ").is_empty());
}

#[test]
fn captured_key_press_builds_the_hotkey_text() {
    assert_eq!(captured_hotkey("ShiftLeft", true, false, true), None);
    assert_eq!(captured_hotkey("SuperRight", false, false, false), None);
    assert_eq!(captured_hotkey("Escape", true, true, true), Some(None));
    assert_eq!(
        captured_hotkey("M", true, false, true),
        Some(Some("Ctrl+Shift+M".to_string()))
    );
    assert_eq!(captured_hotkey("F1", false, true, false), Some(Some("Alt+F1".to_string())));
    assert_eq!(
        captured_hotkey("Space", true, true, true),
        Some(Some("Ctrl+Alt+Shift+Space".to_string()))
    );
    assert_eq!(captured_hotkey("Pause", false, false, false), Some(Some("Pause".to_string())));
    let captured = captured_hotkey("M", true, false, true).unwrap().unwrap();
    assert!(hotkey_errors(&captured, "").is_empty());
}

#[test]
fn virtual_keys_name_hotkey_tokens() {
    assert_eq!(virtual_key_name(0x13).as_deref(), Some("Pause"));
    assert_eq!(virtual_key_name(0x20).as_deref(), Some("Space"));
    assert_eq!(virtual_key_name(0x21).as_deref(), Some("PageDown"));
    assert_eq!(virtual_key_name(0x2E).as_deref(), Some("Delete"));
    assert_eq!(virtual_key_name(0x70).as_deref(), Some("F1"));
    assert_eq!(virtual_key_name(0x7B).as_deref(), Some("F12"));
    assert_eq!(virtual_key_name(0x87).as_deref(), Some("F24"));
    assert_eq!(virtual_key_name(0x30).as_deref(), Some("0"));
    assert_eq!(virtual_key_name(0x39).as_deref(), Some("9"));
    assert_eq!(virtual_key_name(0x41).as_deref(), Some("A"));
    assert_eq!(virtual_key_name(0x5A).as_deref(), Some("Z"));
    for key in [0x08, 0x10, 0x11, 0x12, 0x29, 0x3A, 0x40, 0x5B, 0x5C, 0x6F, 0x88, 0xFE, -1] {
        assert_eq!(virtual_key_name(key), None, "{key:#x}");
    }
}

#[test]
fn pressed_key_joins_modifiers_in_order() {
    assert_eq!(pressed_hotkey("M", true, true, true, true), "Ctrl+Alt+Shift+Super+M");
    assert_eq!(pressed_hotkey("Pause", false, false, false, false), "Pause");
    assert_eq!(pressed_hotkey("F1", false, true, false, false), "Alt+F1");
    let text = pressed_hotkey(&virtual_key_name(0x4D).unwrap(), true, false, true, false);
    assert_eq!(text, "Ctrl+Shift+M");
    assert!(hotkey_errors(&text, "").is_empty());
}

#[test]
fn retired_indicator_modes_show_as_numbers() {
    assert_eq!(dialog_indicator_fields("halos_solid", false), ("numbers".to_string(), false));
    assert_eq!(dialog_indicator_fields("numbers_blink", false), ("numbers".to_string(), true));
    assert_eq!(dialog_indicator_fields("auto", false), ("auto".to_string(), false));
    assert_eq!(dialog_indicator_fields("numbers", true), ("numbers".to_string(), true));
    assert_eq!(dialog_indicator_fields("extended", false), ("extended".to_string(), false));
}

#[test]
fn solo_input_choices_follow_the_language() {
    assert_eq!(
        solo_mute_input_items("en"),
        vec!["All", "Input 1 — instrument", "Input 2 — microphone", "Inputs 1 + 2"]
    );
    assert_eq!(
        solo_mute_input_items("RU"),
        vec!["Все", "Вход 1 — инструмент", "Вход 2 — микрофон", "Входы 1 + 2"]
    );
}

#[test]
fn apply_note_follows_the_language() {
    assert_eq!(apply_message("en"), "Saved. Changes apply when this window closes.");
    assert_eq!(
        apply_message("ru"),
        "Настройки сохранены. Они начнут действовать после закрытия окна."
    );
}

#[test]
fn capture_fills_the_field_being_recorded() {
    let mut fields = HotkeyFields {
        hotkey: "Ctrl+Shift+M".to_string(),
        ptt_hotkey: String::new(),
        capturing: Some(CaptureTarget::PushToTalk),
    };
    fields.apply_capture(None);
    assert_eq!(fields.capturing, Some(CaptureTarget::PushToTalk));
    fields.apply_capture(captured_hotkey("ShiftLeft", false, false, true));
    assert_eq!(fields.capturing, Some(CaptureTarget::PushToTalk));
    fields.apply_capture(captured_hotkey("Space", true, false, false));
    assert_eq!(fields.capturing, None);
    assert_eq!(fields.ptt_hotkey, "Ctrl+Space");
    assert_eq!(fields.hotkey, "Ctrl+Shift+M");

    fields.capturing = Some(CaptureTarget::Toggle);
    fields.apply_capture(captured_hotkey("Escape", false, false, false));
    assert_eq!(fields.capturing, None);
    assert_eq!(fields.hotkey, "Ctrl+Shift+M");

    fields.apply_capture(Some(Some("F9".to_string())));
    assert_eq!(fields.hotkey, "Ctrl+Shift+M");
    fields.capturing = Some(CaptureTarget::Toggle);
    fields.apply_capture(Some(Some("F9".to_string())));
    assert_eq!(fields.hotkey, "F9");
    assert_eq!(fields.ptt_hotkey, "Ctrl+Space");
}

#[test]
fn form_errors_come_in_order() {
    assert_eq!(form_check(Ok(9736), vec![], "Ctrl+Shift+M", ""), Ok(9736));
    let port_err = parse_browser_sync_port("abc");
    assert_eq!(
        form_check(port_err.clone(), vec!["color".to_string()], "Ctrl+Blah", ""),
        Err(vec![port_err.unwrap_err()])
    );
    assert_eq!(
        form_check(Ok(0), vec!["Invalid color".to_string()], "Ctrl+Blah", "Ctrl+Blah"),
        Err(vec![
            "Invalid color".to_string(),
            "Invalid hotkey. Examples: Ctrl+Shift+M, Alt+F1".to_string(),
            "Invalid push-to-talk hotkey. Examples: Ctrl+Space, Alt+F2".to_string(),
        ])
    );
}

#[test]
fn key_state_capture_takes_the_first_named_key() {
    let mut pressed = vec![false; 256];
    assert_eq!(pressed_keys_hotkey(&pressed, true, false, false, false), None);
    pressed[0x10] = true; // Shift alone
    assert_eq!(pressed_keys_hotkey(&pressed, false, false, true, false), None);
    pressed[0x4D] = true; // M
    pressed[0x70] = true; // F1
    assert_eq!(
        pressed_keys_hotkey(&pressed, true, false, true, false),
        Some(Some("Ctrl+Shift+M".to_string()))
    );
    pressed[0x20] = true; // Space comes first
    assert_eq!(
        pressed_keys_hotkey(&pressed, false, false, false, true),
        Some(Some("Super+Space".to_string()))
    );
    assert_eq!(
        pressed_keys_hotkey(&pressed[..0x21], false, false, false, false),
        Some(Some("Space".to_string()))
    );
    assert_eq!(pressed_keys_hotkey(&[], false, false, false, false), None);
}

#[test]
fn key_state_escape_cancels_capture() {
    let mut pressed = vec![false; 256];
    pressed[0x1B] = true; // Escape
    assert_eq!(pressed_keys_hotkey(&pressed, true, false, false, false), Some(None));
    pressed[0x4D] = true; // M comes after Escape
    assert_eq!(pressed_keys_hotkey(&pressed, false, false, false, false), Some(None));
    let mut fields = HotkeyFields {
        hotkey: "Ctrl+Shift+M".to_string(),
        ptt_hotkey: String::new(),
        capturing: Some(CaptureTarget::Toggle),
    };
    fields.apply_capture(pressed_keys_hotkey(&pressed, false, false, false, false));
    assert_eq!(fields.capturing, None);
    assert_eq!(fields.hotkey, "Ctrl+Shift+M");
}

#[test]
fn solo_with_two_inputs_gets_its_own_choices() {
    let general = vec!["All".to_string(), "Input 1".to_string()];
    assert_eq!(mute_input_items(false, 2, "en", general.clone()), general);
    assert_eq!(mute_input_items(true, 1, "en", general.clone()), general);
    assert_eq!(mute_input_items(true, 2, "ru", general.clone())[1], "Вход 1 — инструмент");
}

#[test]
fn config_text_fields() {
    assert_eq!(chosen_color_text(ColorDirty::Picker, "garbage", "#00FF00".into()), "#00FF00");
    assert_eq!(chosen_color_text(ColorDirty::Text, "#00FF00", "#FF0000".into()), "#00FF00");
    assert_eq!(chosen_color_text(ColorDirty::Neither, "red", "#FF0000".into()), "red");
    assert_eq!(stored_ptt_hotkey("   "), "");
    assert_eq!(stored_ptt_hotkey(" Ctrl+Space "), "Ctrl+Space");
}

#[test]
fn save_and_apply_outcomes() {
    let mut messages = DialogMessages { errors: vec![], apply_message: None };
    assert!(!messages.after_save(Err(vec!["bad".to_string()])));
    assert_eq!(messages.errors, vec!["bad".to_string()]);
    assert!(messages.after_save(Ok(())));
    messages.after_apply("en", ApplyOutcome::SaveFailed("disk full".to_string()));
    assert_eq!(messages.errors, vec!["Could not save settings: disk full".to_string()]);
    assert_eq!(messages.apply_message, None);
    messages.after_apply("RU", ApplyOutcome::Saved);
    assert!(messages.errors.is_empty());
    assert_eq!(
        messages.apply_message.as_deref(),
        Some("Настройки сохранены. Они начнут действовать после закрытия окна.")
    );
    messages.after_apply("en", ApplyOutcome::Invalid(vec!["x".to_string()]));
    assert_eq!(messages.errors, vec!["x".to_string()]);
    assert!(messages.apply_message.is_some());
}

#[test]
fn blink_options_exclude_each_other() {
    let mut blink = BlinkFields { blink_while_muted: false, blink_on_talk: false };
    blink.set_blink_on_talk(true);
    assert!(blink.blink_on_talk && blink.shows_sensitivity());
    blink.set_blink_while_muted(true);
    assert!(!blink.blink_while_muted && blink.blink_on_talk);
    blink.set_blink_on_talk(false);
    blink.set_blink_while_muted(true);
    assert!(blink.blink_while_muted && !blink.blink_on_talk && !blink.shows_sensitivity());
    let mut both = BlinkFields { blink_while_muted: true, blink_on_talk: true };
    both.set_blink_on_talk(false);
    both.set_blink_while_muted(false);
    assert!(both.blink_while_muted && both.blink_on_talk && !both.shows_sensitivity());
}

#[test]
fn stale_errors_clear_when_the_form_changes() {
    let mut errors = vec!["x".to_string()];
    clear_stale_errors(&mut errors, false);
    assert_eq!(errors, vec!["x".to_string()]);
    clear_stale_errors(&mut errors, true);
    assert!(errors.is_empty());
}

#[test]
fn meter_reads_every_ninety_ms_and_reopens() {
    let mut meter = MeterState { next_read_ms: 0, device_open: false, levels: vec![], error: None };
    assert_eq!(meter.tick(1000), MeterAction::OpenThenRead);
    assert_eq!(meter.next_read_ms, 1090);
    meter.opened(true);
    assert_eq!(meter.tick(1050), MeterAction::Wait);
    assert_eq!(meter.tick(1090), MeterAction::Read);
    meter.read_done(Ok(vec![10, 20]));
    assert_eq!(meter.levels, vec![10, 20]);
    assert_eq!(meter.tick(1200), MeterAction::Read);
    meter.read_done(Err("gone".to_string()));
    assert_eq!(meter.levels, vec![10, 20]);
    assert_eq!(meter.error.as_deref(), Some("gone"));
    assert!(!meter.device_open);
    assert_eq!(meter.tick(1290), MeterAction::OpenThenRead);
    meter.opened(false);
    assert_eq!(meter.tick(1380), MeterAction::OpenThenRead);
}

#[test]
fn registered_id_parses_the_text_as_it_stands() {
    assert!(registered_hotkey_id("Ctrl+Shift+M").is_some());
    assert_eq!(registered_hotkey_id("Ctrl+Shift+M"), registered_hotkey_id("Shift+Ctrl+M"));
    assert_ne!(registered_hotkey_id("Ctrl+Shift+M"), registered_hotkey_id("Ctrl+M"));
    assert_eq!(registered_hotkey_id("Not+A+Real+Key"), None);
    assert_eq!(registered_hotkey_id(""), None);
}
