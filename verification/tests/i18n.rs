use focusmute::i18n::tr;

#[test]
fn english_is_used_for_every_language_but_russian() {
    assert_eq!(tr("en", "settings"), "Settings");
    assert_eq!(tr("de", "save"), "Save");
    assert_eq!(tr("", "quit"), "Quit");
    assert_eq!(tr("russian", "cancel"), "Cancel");
}

#[test]
fn russian_is_selected_without_ascii_case() {
    assert_eq!(tr("ru", "settings"), "Настройки");
    assert_eq!(tr("RU", "save"), "Сохранить");
    assert_eq!(tr("Ru", "cancel"), "Отмена");
}

#[test]
fn unknown_keys_give_empty_text_in_both_languages() {
    assert_eq!(tr("en", "extended"), "");
    assert_eq!(tr("ru", "extended"), "");
    assert_eq!(tr("ru", "blink_while_muted"), "");
    assert_eq!(tr("en", "Settings"), "");
}

#[test]
fn long_texts_are_complete() {
    assert_eq!(
        tr("en", "about_description"),
        "Hotkey mute control for Focusrite Scarlett 4th Gen interfaces"
    );
    assert_eq!(
        tr("ru", "solo_number_note"),
        "Solo: mute подсвечивает выбранный номер канала: 1 (LED 4), 2 (LED 12) или оба. После unmute номера возвращаются в белый цвет."
    );
    assert!(tr("en", "led_lab_intro").starts_with("Map from 20-ledtest.md."));
}

#[test]
fn every_key_is_translated_in_both_catalogues() {
    let keys = [
        "settings", "mute_indicator", "keyboard", "hotkey", "push_to_talk", "record",
        "press_keys", "sound", "system", "language", "save", "cancel", "muted", "live",
        "toggle_mute", "reconnect", "resync", "connect_device", "quit", "advanced", "mute_color",
        "mute_inputs", "mute_display", "auto", "numbers", "numbers_blink", "solo_number_note",
        "mute_display_tip", "solid_halos", "blink_on_talk", "sensitivity", "sound_feedback",
        "mute_sound", "unmute_sound", "clear", "browse", "built_in", "start_windows",
        "start_system", "notifications", "direct_button", "direct_tip", "log_level", "webhooks",
        "browser_sync", "about", "volume", "play", "on_mute_url", "on_unmute_url", "body",
        "suppress_sound", "meeting_mute", "port", "source", "about_description", "main",
        "led_lab", "led_lab_title", "led_lab_intro", "led_snapshot", "led_reset", "led_index",
        "led_single_test", "led_next_test", "led_bulk_mode", "led_bulk_test", "led_lab_result",
        "apply", "input_levels", "input_level_tip", "meter_unavailable", "blink_tip",
    ];
    assert_eq!(keys.len(), 73);
    for key in keys {
        assert!(!tr("en", key).is_empty(), "{key}");
        assert!(!tr("ru", key).is_empty(), "{key}");
        assert_ne!(tr("en", key), tr("ru", key), "{key}");
    }
}
