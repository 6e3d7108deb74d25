//! The built-in catalogue of the texts shown to the user, in English and
//! Russian. Configuration values stay language neutral; only the text shown
//! to the user follows the chosen language.
use vstd::prelude::*;
use crate::text::{ascii_lower_code, chars_equal, chars_of, eq_ignore_ascii_case, eq_ignore_ascii_case_spec};

verus! {

/// The English text of `key`, if the catalogue has one.
pub open spec fn english_text(key: Seq<char>) -> Option<Seq<char>> {
    if key == "settings"@ {
        Some("Settings"@)
    } else if key == "mute_indicator"@ {
        Some("Mute Indicator"@)
    } else if key == "keyboard"@ {
        Some("Keyboard"@)
    } else if key == "hotkey"@ {
        Some("Hotkey"@)
    } else if key == "push_to_talk"@ {
        Some("Push-to-talk"@)
    } else if key == "record"@ {
        Some("Record"@)
    } else if key == "press_keys"@ {
        Some("Press a key or key combination. Escape cancels."@)
    } else if key == "sound"@ {
        Some("Sound"@)
    } else if key == "system"@ {
        Some("System"@)
    } else if key == "language"@ {
        Some("Language"@)
    } else if key == "save"@ {
        Some("Save"@)
    } else if key == "cancel"@ {
        Some("Cancel"@)
    } else if key == "muted"@ {
        Some("Muted"@)
    } else if key == "live"@ {
        Some("Live"@)
    } else if key == "toggle_mute"@ {
        Some("Toggle Mute"@)
    } else if key == "reconnect"@ {
        Some("Reconnect device"@)
    } else if key == "resync"@ {
        Some("Re-sync device"@)
    } else if key == "connect_device"@ {
        Some("Connect a Scarlett 4th Gen device"@)
    } else if key == "quit"@ {
        Some("Quit"@)
    } else if key == "advanced"@ {
        Some("Advanced"@)
    } else if key == "mute_color"@ {
        Some("Mute Color"@)
    } else if key == "mute_inputs"@ {
        Some("Mute Inputs"@)
    } else if key == "mute_display"@ {
        Some("Mute display"@)
    } else if key == "auto"@ {
        Some("Auto"@)
    } else if key == "numbers"@ {
        Some("Numbers only"@)
    } else if key == "numbers_blink"@ {
        Some("Blink while muted"@)
    } else if key == "solo_number_note"@ {
        Some("Solo: mute lights the selected channel number: 1 (LED 4), 2 (LED 12), or both. Unmute restores those numbers to white."@)
    } else if key == "mute_display_tip"@ {
        Some("Solo: mute uses only the selected channel numbers: 1 is LED 4 and 2 is LED 12. Mute blinking is independent of input level. 2i2 retains its number map."@)
    } else if key == "solid_halos"@ {
        Some("Solid level halos"@)
    } else if key == "blink_on_talk"@ {
        Some("Blink on talk"@)
    } else if key == "sensitivity"@ {
        Some("Sensitivity"@)
    } else if key == "sound_feedback"@ {
        Some("Sound feedback"@)
    } else if key == "mute_sound"@ {
        Some("Mute Sound"@)
    } else if key == "unmute_sound"@ {
        Some("Unmute Sound"@)
    } else if key == "clear"@ {
        Some("Clear"@)
    } else if key == "browse"@ {
        Some("Browse..."@)
    } else if key == "built_in"@ {
        Some("(built-in)"@)
    } else if key == "start_windows"@ {
        Some("Start with Windows"@)
    } else if key == "start_system"@ {
        Some("Start with System"@)
    } else if key == "notifications"@ {
        Some("Desktop notifications"@)
    } else if key == "direct_button"@ {
        Some("Experimental: Direct button — one press toggles mute, two presses toggle Direct"@)
    } else if key == "direct_tip"@ {
        Some("Solo only. Direct changes briefly before FocusMute can classify the gesture."@)
    } else if key == "log_level"@ {
        Some("Log level"@)
    } else if key == "webhooks"@ {
        Some("Webhooks"@)
    } else if key == "browser_sync"@ {
        Some("Browser sync"@)
    } else if key == "about"@ {
        Some("About"@)
    } else if key == "volume"@ {
        Some("Volume"@)
    } else if key == "play"@ {
        Some("Play"@)
    } else if key == "on_mute_url"@ {
        Some("On mute URL"@)
    } else if key == "on_unmute_url"@ {
        Some("On unmute URL"@)
    } else if key == "body"@ {
        Some("Body"@)
    } else if key == "suppress_sound"@ {
        Some("Suppress sound on mute/unmute"@)
    } else if key == "meeting_mute"@ {
        Some("Let FocusMute mute/unmute the meeting"@)
    } else if key == "port"@ {
        Some("Port"@)
    } else if key == "source"@ {
        Some("Source"@)
    } else if key == "about_description"@ {
        Some("Hotkey mute control for Focusrite Scarlett 4th Gen interfaces"@)
    } else if key == "main"@ {
        Some("Main"@)
    } else if key == "led_lab"@ {
        Some("LED Lab"@)
    } else if key == "led_lab_title"@ {
        Some("Solo indicator laboratory"@)
    } else if key == "led_lab_intro"@ {
        Some("Map from 20-ledtest.md. Tests are available for numbers 1 (4), 2 (12), and transient halos. Button and bulk tests are disabled: the command buffer cannot reliably restore their colours. Test colour comes from Main settings. A snapshot is a command buffer, not actual panel colours. Reconnect USB to recover from earlier bulk tests."@)
    } else if key == "led_snapshot"@ {
        Some("Read state snapshot"@)
    } else if key == "led_reset"@ {
        Some("Restore selected numbers to white"@)
    } else if key == "led_index"@ {
        Some("LED / slot index"@)
    } else if key == "led_single_test"@ {
        Some("Test one LED"@)
    } else if key == "led_next_test"@ {
        Some("Next LED"@)
    } else if key == "led_bulk_mode"@ {
        Some("Bulk test mode"@)
    } else if key == "led_bulk_test"@ {
        Some("Test bulk slot"@)
    } else if key == "led_lab_result"@ {
        Some("Command result"@)
    } else if key == "apply"@ {
        Some("Apply"@)
    } else if key == "input_levels"@ {
        Some("Active input levels"@)
    } else if key == "input_level_tip"@ {
        Some("Live signal from selected Scarlett inputs. This is input signal, not the Windows mute state."@)
    } else if key == "meter_unavailable"@ {
        Some("No device meter data"@)
    } else if key == "blink_tip"@ {
        Some("When Windows mute is on and a selected input exceeds the threshold, the mute indicator blinks to warn that you are talking while muted."@)
    } else {
        None
    }
}

/// The Russian text of `key`, if the catalogue has one.
pub open spec fn russian_text(key: Seq<char>) -> Option<Seq<char>> {
    if key == "settings"@ {
        Some("Настройки"@)
    } else if key == "mute_indicator"@ {
        Some("Индикация mute"@)
    } else if key == "keyboard"@ {
        Some("Клавиатура"@)
    } else if key == "hotkey"@ {
        Some("Горячая клавиша"@)
    } else if key == "push_to_talk"@ {
        Some("Нажми и говори"@)
    } else if key == "record"@ {
        Some("Записать"@)
    } else if key == "press_keys"@ {
        Some("Нажмите клавишу или сочетание. Escape — отмена."@)
    } else if key == "sound"@ {
        Some("Звук"@)
    } else if key == "system"@ {
        Some("Система"@)
    } else if key == "language"@ {
        Some("Язык"@)
    } else if key == "save"@ {
        Some("Сохранить"@)
    } else if key == "cancel"@ {
        Some("Отмена"@)
    } else if key == "muted"@ {
        Some("Микрофон выключен"@)
    } else if key == "live"@ {
        Some("Микрофон включён"@)
    } else if key == "toggle_mute"@ {
        Some("Переключить mute"@)
    } else if key == "reconnect"@ {
        Some("Переподключить устройство"@)
    } else if key == "resync"@ {
        Some("Синхронизировать устройство"@)
    } else if key == "connect_device"@ {
        Some("Подключите Scarlett 4th Gen"@)
    } else if key == "quit"@ {
        Some("Выход"@)
    } else if key == "advanced"@ {
        Some("Дополнительно"@)
    } else if key == "mute_color"@ {
        Some("Цвет mute"@)
    } else if key == "mute_inputs"@ {
        Some("Входы mute"@)
    } else if key == "mute_display"@ {
        Some("Индикация mute"@)
    } else if key == "auto"@ {
        Some("Автоматически"@)
    } else if key == "numbers"@ {
        Some("Только номера"@)
    } else if key == "numbers_blink"@ {
        Some("Мигание при mute"@)
    } else if key == "solo_number_note"@ {
        Some("Solo: mute подсвечивает выбранный номер канала: 1 (LED 4), 2 (LED 12) или оба. После unmute номера возвращаются в белый цвет."@)
    } else if key == "mute_display_tip"@ {
        Some("Solo: mute использует только номера выбранных каналов: 1 — LED 4, 2 — LED 12. Мигание при mute не зависит от уровня звука. 2i2 использует прежнюю карту номеров."@)
    } else if key == "solid_halos"@ {
        Some("Сплошные кольца уровня"@)
    } else if key == "blink_on_talk"@ {
        Some("Мигание при разговоре"@)
    } else if key == "sensitivity"@ {
        Some("Чувствительность"@)
    } else if key == "sound_feedback"@ {
        Some("Звуковой отклик"@)
    } else if key == "mute_sound"@ {
        Some("Звук выключения"@)
    } else if key == "unmute_sound"@ {
        Some("Звук включения"@)
    } else if key == "clear"@ {
        Some("Очистить"@)
    } else if key == "browse"@ {
        Some("Обзор..."@)
    } else if key == "built_in"@ {
        Some("(встроенный)"@)
    } else if key == "start_windows"@ {
        Some("Запускать вместе с Windows"@)
    } else if key == "start_system"@ {
        Some("Запускать вместе с системой"@)
    } else if key == "notifications"@ {
        Some("Уведомления рабочего стола"@)
    } else if key == "direct_button"@ {
        Some("Экспериментально: Direct — одно нажатие переключает mute, два — Direct"@)
    } else if key == "direct_tip"@ {
        Some("Только Solo. Сначала устройство кратко меняет Direct, затем FocusMute распознаёт жест."@)
    } else if key == "log_level"@ {
        Some("Уровень журнала"@)
    } else if key == "webhooks"@ {
        Some("Вебхуки"@)
    } else if key == "browser_sync"@ {
        Some("Синхронизация с браузером"@)
    } else if key == "about"@ {
        Some("О программе"@)
    } else if key == "volume"@ {
        Some("Громкость"@)
    } else if key == "play"@ {
        Some("Воспроизвести"@)
    } else if key == "on_mute_url"@ {
        Some("URL при mute"@)
    } else if key == "on_unmute_url"@ {
        Some("URL при unmute"@)
    } else if key == "body"@ {
        Some("Тело"@)
    } else if key == "suppress_sound"@ {
        Some("Не воспроизводить звук при mute/unmute"@)
    } else if key == "meeting_mute"@ {
        Some("Переключать mute конференции из FocusMute"@)
    } else if key == "port"@ {
        Some("Порт"@)
    } else if key == "source"@ {
        Some("Исходный код"@)
    } else if key == "about_description"@ {
        Some("Управление mute через горячие клавиши для Focusrite Scarlett 4th Gen"@)
    } else if key == "main"@ {
        Some("Основные"@)
    } else if key == "led_lab"@ {
        Some("Проверка LED"@)
    } else if key == "led_lab_title"@ {
        Some("Лаборатория индикаторов Solo"@)
    } else if key == "led_lab_intro"@ {
        Some("Карта из 20-ledtest.md. Доступны номера 1 (4), 2 (12) и кратковременные тесты halo. Тесты кнопок и bulk отключены: их цвета нельзя достоверно восстановить из массива команд. Цвет берётся из основных настроек. Снимок — буфер команд, не фактические цвета. После старых bulk-тестов восстановите панель переподключением USB."@)
    } else if key == "led_snapshot"@ {
        Some("Снимок состояния"@)
    } else if key == "led_reset"@ {
        Some("Вернуть выбранные номера в белый"@)
    } else if key == "led_index"@ {
        Some("Индекс LED / slot"@)
    } else if key == "led_single_test"@ {
        Some("Проверить один LED"@)
    } else if key == "led_next_test"@ {
        Some("Следующий LED"@)
    } else if key == "led_bulk_mode"@ {
        Some("Режим bulk-проверки"@)
    } else if key == "led_bulk_test"@ {
        Some("Проверить bulk-slot"@)
    } else if key == "led_lab_result"@ {
        Some("Результат команды"@)
    } else if key == "apply"@ {
        Some("Применить"@)
    } else if key == "input_levels"@ {
        Some("Уровни активных входов"@)
    } else if key == "input_level_tip"@ {
        Some("Живой уровень сигнала с выбранных входов Scarlett. Он показывает сигнал на входе, а не состояние mute Windows."@)
    } else if key == "meter_unavailable"@ {
        Some("Нет данных от устройства"@)
    } else if key == "blink_tip"@ {
        Some("Когда Windows mute включён и сигнал выбранного входа превышает порог, индикатор mute мигает. Это предупреждает, что вы говорите при выключенном микрофоне."@)
    } else {
        None
    }
}

/// The English text of `key`; empty for a key the catalogue lacks.
pub open spec fn english_spec(key: Seq<char>) -> Seq<char> {
    match english_text(key) {
        Some(text) => text,
        None => ""@,
    }
}

/// `language` selects Russian: it is `ru` in any ASCII case.
pub open spec fn is_russian(language: Seq<char>) -> bool {
    eq_ignore_ascii_case_spec(language, "ru"@)
}

/// The text shown for `key` in `language`: Russian where `language` is
/// `ru` (in any case) and the key has a Russian text, English otherwise.
pub open spec fn tr_spec(language: Seq<char>, key: Seq<char>) -> Seq<char> {
    if is_russian(language) {
        match russian_text(key) {
            Some(text) => text,
            None => english_spec(key),
        }
    } else {
        english_spec(key)
    }
}

/// The text shown for `key` in `language`. Every language other than `ru`
/// gets English; a key without a Russian text falls back to English; a key
/// the catalogue lacks gives the empty string.
pub fn tr(language: &str, key: &str) -> (text: &'static str)
    ensures
        text@ == tr_spec(language@, key@),
{
    if !eq_ignore_ascii_case(language, "ru") {
        return english(key);
    }
    let k = chars_of(key);
    if chars_equal(&k, "settings") {
        return "Настройки";
    }
    if chars_equal(&k, "mute_indicator") {
        return "Индикация mute";
    }
    if chars_equal(&k, "keyboard") {
        return "Клавиатура";
    }
    if chars_equal(&k, "hotkey") {
        return "Горячая клавиша";
    }
    if chars_equal(&k, "push_to_talk") {
        return "Нажми и говори";
    }
    if chars_equal(&k, "record") {
        return "Записать";
    }
    if chars_equal(&k, "press_keys") {
        return "Нажмите клавишу или сочетание. Escape — отмена.";
    }
    if chars_equal(&k, "sound") {
        return "Звук";
    }
    if chars_equal(&k, "system") {
        return "Система";
    }
    if chars_equal(&k, "language") {
        return "Язык";
    }
    if chars_equal(&k, "save") {
        return "Сохранить";
    }
    if chars_equal(&k, "cancel") {
        return "Отмена";
    }
    if chars_equal(&k, "muted") {
        return "Микрофон выключен";
    }
    if chars_equal(&k, "live") {
        return "Микрофон включён";
    }
    if chars_equal(&k, "toggle_mute") {
        return "Переключить mute";
    }
    if chars_equal(&k, "reconnect") {
        return "Переподключить устройство";
    }
    if chars_equal(&k, "resync") {
        return "Синхронизировать устройство";
    }
    if chars_equal(&k, "connect_device") {
        return "Подключите Scarlett 4th Gen";
    }
    if chars_equal(&k, "quit") {
        return "Выход";
    }
    if chars_equal(&k, "advanced") {
        return "Дополнительно";
    }
    if chars_equal(&k, "mute_color") {
        return "Цвет mute";
    }
    if chars_equal(&k, "mute_inputs") {
        return "Входы mute";
    }
    if chars_equal(&k, "mute_display") {
        return "Индикация mute";
    }
    if chars_equal(&k, "auto") {
        return "Автоматически";
    }
    if chars_equal(&k, "numbers") {
        return "Только номера";
    }
    if chars_equal(&k, "numbers_blink") {
        return "Мигание при mute";
    }
    if chars_equal(&k, "solo_number_note") {
        return "Solo: mute подсвечивает выбранный номер канала: 1 (LED 4), 2 (LED 12) или оба. После unmute номера возвращаются в белый цвет.";
    }
    if chars_equal(&k, "mute_display_tip") {
        return "Solo: mute использует только номера выбранных каналов: 1 — LED 4, 2 — LED 12. Мигание при mute не зависит от уровня звука. 2i2 использует прежнюю карту номеров.";
    }
    if chars_equal(&k, "solid_halos") {
        return "Сплошные кольца уровня";
    }
    if chars_equal(&k, "blink_on_talk") {
        return "Мигание при разговоре";
    }
    if chars_equal(&k, "sensitivity") {
        return "Чувствительность";
    }
    if chars_equal(&k, "sound_feedback") {
        return "Звуковой отклик";
    }
    if chars_equal(&k, "mute_sound") {
        return "Звук выключения";
    }
    if chars_equal(&k, "unmute_sound") {
        return "Звук включения";
    }
    if chars_equal(&k, "clear") {
        return "Очистить";
    }
    if chars_equal(&k, "browse") {
        return "Обзор...";
    }
    if chars_equal(&k, "built_in") {
        return "(встроенный)";
    }
    if chars_equal(&k, "start_windows") {
        return "Запускать вместе с Windows";
    }
    if chars_equal(&k, "start_system") {
        return "Запускать вместе с системой";
    }
    if chars_equal(&k, "notifications") {
        return "Уведомления рабочего стола";
    }
    if chars_equal(&k, "direct_button") {
        return "Экспериментально: Direct — одно нажатие переключает mute, два — Direct";
    }
    if chars_equal(&k, "direct_tip") {
        return "Только Solo. Сначала устройство кратко меняет Direct, затем FocusMute распознаёт жест.";
    }
    if chars_equal(&k, "log_level") {
        return "Уровень журнала";
    }
    if chars_equal(&k, "webhooks") {
        return "Вебхуки";
    }
    if chars_equal(&k, "browser_sync") {
        return "Синхронизация с браузером";
    }
    if chars_equal(&k, "about") {
        return "О программе";
    }
    if chars_equal(&k, "volume") {
        return "Громкость";
    }
    if chars_equal(&k, "play") {
        return "Воспроизвести";
    }
    if chars_equal(&k, "on_mute_url") {
        return "URL при mute";
    }
    if chars_equal(&k, "on_unmute_url") {
        return "URL при unmute";
    }
    if chars_equal(&k, "body") {
        return "Тело";
    }
    if chars_equal(&k, "suppress_sound") {
        return "Не воспроизводить звук при mute/unmute";
    }
    if chars_equal(&k, "meeting_mute") {
        return "Переключать mute конференции из FocusMute";
    }
    if chars_equal(&k, "port") {
        return "Порт";
    }
    if chars_equal(&k, "source") {
        return "Исходный код";
    }
    if chars_equal(&k, "about_description") {
        return "Управление mute через горячие клавиши для Focusrite Scarlett 4th Gen";
    }
    if chars_equal(&k, "main") {
        return "Основные";
    }
    if chars_equal(&k, "led_lab") {
        return "Проверка LED";
    }
    if chars_equal(&k, "led_lab_title") {
        return "Лаборатория индикаторов Solo";
    }
    if chars_equal(&k, "led_lab_intro") {
        return "Карта из 20-ledtest.md. Доступны номера 1 (4), 2 (12) и кратковременные тесты halo. Тесты кнопок и bulk отключены: их цвета нельзя достоверно восстановить из массива команд. Цвет берётся из основных настроек. Снимок — буфер команд, не фактические цвета. После старых bulk-тестов восстановите панель переподключением USB.";
    }
    if chars_equal(&k, "led_snapshot") {
        return "Снимок состояния";
    }
    if chars_equal(&k, "led_reset") {
        return "Вернуть выбранные номера в белый";
    }
    if chars_equal(&k, "led_index") {
        return "Индекс LED / slot";
    }
    if chars_equal(&k, "led_single_test") {
        return "Проверить один LED";
    }
    if chars_equal(&k, "led_next_test") {
        return "Следующий LED";
    }
    if chars_equal(&k, "led_bulk_mode") {
        return "Режим bulk-проверки";
    }
    if chars_equal(&k, "led_bulk_test") {
        return "Проверить bulk-slot";
    }
    if chars_equal(&k, "led_lab_result") {
        return "Результат команды";
    }
    if chars_equal(&k, "apply") {
        return "Применить";
    }
    if chars_equal(&k, "input_levels") {
        return "Уровни активных входов";
    }
    if chars_equal(&k, "input_level_tip") {
        return "Живой уровень сигнала с выбранных входов Scarlett. Он показывает сигнал на входе, а не состояние mute Windows.";
    }
    if chars_equal(&k, "meter_unavailable") {
        return "Нет данных от устройства";
    }
    if chars_equal(&k, "blink_tip") {
        return "Когда Windows mute включён и сигнал выбранного входа превышает порог, индикатор mute мигает. Это предупреждает, что вы говорите при выключенном микрофоне.";
    }
    english(key)
}

fn english(key: &str) -> (text: &'static str)
    ensures
        text@ == english_spec(key@),
{
    let k = chars_of(key);
    if chars_equal(&k, "settings") {
        return "Settings";
    }
    if chars_equal(&k, "mute_indicator") {
        return "Mute Indicator";
    }
    if chars_equal(&k, "keyboard") {
        return "Keyboard";
    }
    if chars_equal(&k, "hotkey") {
        return "Hotkey";
    }
    if chars_equal(&k, "push_to_talk") {
        return "Push-to-talk";
    }
    if chars_equal(&k, "record") {
        return "Record";
    }
    if chars_equal(&k, "press_keys") {
        return "Press a key or key combination. Escape cancels.";
    }
    if chars_equal(&k, "sound") {
        return "Sound";
    }
    if chars_equal(&k, "system") {
        return "System";
    }
    if chars_equal(&k, "language") {
        return "Language";
    }
    if chars_equal(&k, "save") {
        return "Save";
    }
    if chars_equal(&k, "cancel") {
        return "Cancel";
    }
    if chars_equal(&k, "muted") {
        return "Muted";
    }
    if chars_equal(&k, "live") {
        return "Live";
    }
    if chars_equal(&k, "toggle_mute") {
        return "Toggle Mute";
    }
    if chars_equal(&k, "reconnect") {
        return "Reconnect device";
    }
    if chars_equal(&k, "resync") {
        return "Re-sync device";
    }
    if chars_equal(&k, "connect_device") {
        return "Connect a Scarlett 4th Gen device";
    }
    if chars_equal(&k, "quit") {
        return "Quit";
    }
    if chars_equal(&k, "advanced") {
        return "Advanced";
    }
    if chars_equal(&k, "mute_color") {
        return "Mute Color";
    }
    if chars_equal(&k, "mute_inputs") {
        return "Mute Inputs";
    }
    if chars_equal(&k, "mute_display") {
        return "Mute display";
    }
    if chars_equal(&k, "auto") {
        return "Auto";
    }
    if chars_equal(&k, "numbers") {
        return "Numbers only";
    }
    if chars_equal(&k, "numbers_blink") {
        return "Blink while muted";
    }
    if chars_equal(&k, "solo_number_note") {
        return "Solo: mute lights the selected channel number: 1 (LED 4), 2 (LED 12), or both. Unmute restores those numbers to white.";
    }
    if chars_equal(&k, "mute_display_tip") {
        return "Solo: mute uses only the selected channel numbers: 1 is LED 4 and 2 is LED 12. Mute blinking is independent of input level. 2i2 retains its number map.";
    }
    if chars_equal(&k, "solid_halos") {
        return "Solid level halos";
    }
    if chars_equal(&k, "blink_on_talk") {
        return "Blink on talk";
    }
    if chars_equal(&k, "sensitivity") {
        return "Sensitivity";
    }
    if chars_equal(&k, "sound_feedback") {
        return "Sound feedback";
    }
    if chars_equal(&k, "mute_sound") {
        return "Mute Sound";
    }
    if chars_equal(&k, "unmute_sound") {
        return "Unmute Sound";
    }
    if chars_equal(&k, "clear") {
        return "Clear";
    }
    if chars_equal(&k, "browse") {
        return "Browse...";
    }
    if chars_equal(&k, "built_in") {
        return "(built-in)";
    }
    if chars_equal(&k, "start_windows") {
        return "Start with Windows";
    }
    if chars_equal(&k, "start_system") {
        return "Start with System";
    }
    if chars_equal(&k, "notifications") {
        return "Desktop notifications";
    }
    if chars_equal(&k, "direct_button") {
        return "Experimental: Direct button — one press toggles mute, two presses toggle Direct";
    }
    if chars_equal(&k, "direct_tip") {
        return "Solo only. Direct changes briefly before FocusMute can classify the gesture.";
    }
    if chars_equal(&k, "log_level") {
        return "Log level";
    }
    if chars_equal(&k, "webhooks") {
        return "Webhooks";
    }
    if chars_equal(&k, "browser_sync") {
        return "Browser sync";
    }
    if chars_equal(&k, "about") {
        return "About";
    }
    if chars_equal(&k, "volume") {
        return "Volume";
    }
    if chars_equal(&k, "play") {
        return "Play";
    }
    if chars_equal(&k, "on_mute_url") {
        return "On mute URL";
    }
    if chars_equal(&k, "on_unmute_url") {
        return "On unmute URL";
    }
    if chars_equal(&k, "body") {
        return "Body";
    }
    if chars_equal(&k, "suppress_sound") {
        return "Suppress sound on mute/unmute";
    }
    if chars_equal(&k, "meeting_mute") {
        return "Let FocusMute mute/unmute the meeting";
    }
    if chars_equal(&k, "port") {
        return "Port";
    }
    if chars_equal(&k, "source") {
        return "Source";
    }
    if chars_equal(&k, "about_description") {
        return "Hotkey mute control for Focusrite Scarlett 4th Gen interfaces";
    }
    if chars_equal(&k, "main") {
        return "Main";
    }
    if chars_equal(&k, "led_lab") {
        return "LED Lab";
    }
    if chars_equal(&k, "led_lab_title") {
        return "Solo indicator laboratory";
    }
    if chars_equal(&k, "led_lab_intro") {
        return "Map from 20-ledtest.md. Tests are available for numbers 1 (4), 2 (12), and transient halos. Button and bulk tests are disabled: the command buffer cannot reliably restore their colours. Test colour comes from Main settings. A snapshot is a command buffer, not actual panel colours. Reconnect USB to recover from earlier bulk tests.";
    }
    if chars_equal(&k, "led_snapshot") {
        return "Read state snapshot";
    }
    if chars_equal(&k, "led_reset") {
        return "Restore selected numbers to white";
    }
    if chars_equal(&k, "led_index") {
        return "LED / slot index";
    }
    if chars_equal(&k, "led_single_test") {
        return "Test one LED";
    }
    if chars_equal(&k, "led_next_test") {
        return "Next LED";
    }
    if chars_equal(&k, "led_bulk_mode") {
        return "Bulk test mode";
    }
    if chars_equal(&k, "led_bulk_test") {
        return "Test bulk slot";
    }
    if chars_equal(&k, "led_lab_result") {
        return "Command result";
    }
    if chars_equal(&k, "apply") {
        return "Apply";
    }
    if chars_equal(&k, "input_levels") {
        return "Active input levels";
    }
    if chars_equal(&k, "input_level_tip") {
        return "Live signal from selected Scarlett inputs. This is input signal, not the Windows mute state.";
    }
    if chars_equal(&k, "meter_unavailable") {
        return "No device meter data";
    }
    if chars_equal(&k, "blink_tip") {
        return "When Windows mute is on and a selected input exceeds the threshold, the mute indicator blinks to warn that you are talking while muted.";
    }
    ""
}

/// A key has a Russian text exactly when it has an English one: the two
/// catalogues cover the same keys.
pub proof fn lemma_catalogues_cover_same_keys(key: Seq<char>)
    ensures
        russian_text(key) is Some <==> english_text(key) is Some,
{
}

/// Only `ru`, in any ASCII case, changes the text: every other language
/// reads the English catalogue.
pub proof fn lemma_other_languages_read_english(language: Seq<char>, key: Seq<char>)
    requires
        !is_russian(language),
    ensures
        tr_spec(language, key) == english_spec(key),
{
}

/// What tells the catalogue's keys apart: the length of each key and, among
/// keys of one length, a character at which they differ.
proof fn lemma_catalogue_key_shapes()
    ensures
        "settings"@.len() == 8,
        "settings"@[0] == 's',
        "mute_indicator"@.len() == 14,
        "mute_indicator"@[0] == 'm',
        "keyboard"@.len() == 8,
        "keyboard"@[0] == 'k',
        "hotkey"@.len() == 6,
        "hotkey"@[0] == 'h',
        "push_to_talk"@.len() == 12,
        "push_to_talk"@[0] == 'p',
        "record"@.len() == 6,
        "record"@[0] == 'r',
        "record"@[2] == 'c',
        "press_keys"@.len() == 10,
        "press_keys"@[0] == 'p',
        "sound"@.len() == 5,
        "sound"@[0] == 's',
        "system"@.len() == 6,
        "system"@[0] == 's',
        "system"@[1] == 'y',
        "language"@.len() == 8,
        "language"@[0] == 'l',
        "save"@.len() == 4,
        "save"@[0] == 's',
        "cancel"@.len() == 6,
        "cancel"@[0] == 'c',
        "muted"@.len() == 5,
        "muted"@[0] == 'm',
        "live"@.len() == 4,
        "live"@[0] == 'l',
        "toggle_mute"@.len() == 11,
        "toggle_mute"@[0] == 't',
        "reconnect"@.len() == 9,
        "reconnect"@[0] == 'r',
        "resync"@.len() == 6,
        "resync"@[0] == 'r',
        "resync"@[2] == 's',
        "connect_device"@.len() == 14,
        "connect_device"@[0] == 'c',
        "quit"@.len() == 4,
        "quit"@[0] == 'q',
        "advanced"@.len() == 8,
        "advanced"@[0] == 'a',
        "mute_color"@.len() == 10,
        "mute_color"@[0] == 'm',
        "mute_color"@[5] == 'c',
        "mute_inputs"@.len() == 11,
        "mute_inputs"@[0] == 'm',
        "mute_display"@.len() == 12,
        "mute_display"@[0] == 'm',
        "mute_display"@[1] == 'u',
        "auto"@.len() == 4,
        "auto"@[0] == 'a',
        "numbers"@.len() == 7,
        "numbers"@[0] == 'n',
        "numbers_blink"@.len() == 13,
        "numbers_blink"@[0] == 'n',
        "numbers_blink"@[1] == 'u',
        "solo_number_note"@.len() == 16,
        "solo_number_note"@[0] == 's',
        "mute_display_tip"@.len() == 16,
        "mute_display_tip"@[0] == 'm',
        "solid_halos"@.len() == 11,
        "solid_halos"@[0] == 's',
        "solid_halos"@[1] == 'o',
        "blink_on_talk"@.len() == 13,
        "blink_on_talk"@[0] == 'b',
        "sensitivity"@.len() == 11,
        "sensitivity"@[0] == 's',
        "sensitivity"@[1] == 'e',
        "sound_feedback"@.len() == 14,
        "sound_feedback"@[0] == 's',
        "sound_feedback"@[1] == 'o',
        "mute_sound"@.len() == 10,
        "mute_sound"@[0] == 'm',
        "mute_sound"@[5] == 's',
        "unmute_sound"@.len() == 12,
        "unmute_sound"@[0] == 'u',
        "clear"@.len() == 5,
        "clear"@[0] == 'c',
        "browse"@.len() == 6,
        "browse"@[0] == 'b',
        "built_in"@.len() == 8,
        "built_in"@[0] == 'b',
        "start_windows"@.len() == 13,
        "start_windows"@[0] == 's',
        "start_system"@.len() == 12,
        "start_system"@[0] == 's',
        "notifications"@.len() == 13,
        "notifications"@[0] == 'n',
        "notifications"@[1] == 'o',
        "direct_button"@.len() == 13,
        "direct_button"@[0] == 'd',
        "direct_tip"@.len() == 10,
        "direct_tip"@[0] == 'd',
        "log_level"@.len() == 9,
        "log_level"@[0] == 'l',
        "log_level"@[1] == 'o',
        "webhooks"@.len() == 8,
        "webhooks"@[0] == 'w',
        "browser_sync"@.len() == 12,
        "browser_sync"@[0] == 'b',
        "about"@.len() == 5,
        "about"@[0] == 'a',
        "about"@[1] == 'b',
        "volume"@.len() == 6,
        "volume"@[0] == 'v',
        "play"@.len() == 4,
        "play"@[0] == 'p',
        "play"@[1] == 'l',
        "on_mute_url"@.len() == 11,
        "on_mute_url"@[0] == 'o',
        "on_unmute_url"@.len() == 13,
        "on_unmute_url"@[0] == 'o',
        "body"@.len() == 4,
        "body"@[0] == 'b',
        "suppress_sound"@.len() == 14,
        "suppress_sound"@[0] == 's',
        "suppress_sound"@[1] == 'u',
        "meeting_mute"@.len() == 12,
        "meeting_mute"@[0] == 'm',
        "meeting_mute"@[1] == 'e',
        "port"@.len() == 4,
        "port"@[0] == 'p',
        "port"@[1] == 'o',
        "source"@.len() == 6,
        "source"@[0] == 's',
        "source"@[1] == 'o',
        "about_description"@.len() == 17,
        "about_description"@[0] == 'a',
        "main"@.len() == 4,
        "main"@[0] == 'm',
        "led_lab"@.len() == 7,
        "led_lab"@[0] == 'l',
        "led_lab_title"@.len() == 13,
        "led_lab_title"@[0] == 'l',
        "led_lab_title"@[4] == 'l',
        "led_lab_title"@[8] == 't',
        "led_lab_intro"@.len() == 13,
        "led_lab_intro"@[0] == 'l',
        "led_lab_intro"@[4] == 'l',
        "led_lab_intro"@[8] == 'i',
        "led_snapshot"@.len() == 12,
        "led_snapshot"@[0] == 'l',
        "led_reset"@.len() == 9,
        "led_reset"@[0] == 'l',
        "led_reset"@[1] == 'e',
        "led_reset"@[4] == 'r',
        "led_index"@.len() == 9,
        "led_index"@[0] == 'l',
        "led_index"@[1] == 'e',
        "led_index"@[4] == 'i',
        "led_single_test"@.len() == 15,
        "led_single_test"@[0] == 'l',
        "led_next_test"@.len() == 13,
        "led_next_test"@[0] == 'l',
        "led_next_test"@[4] == 'n',
        "led_bulk_mode"@.len() == 13,
        "led_bulk_mode"@[0] == 'l',
        "led_bulk_mode"@[4] == 'b',
        "led_bulk_mode"@[9] == 'm',
        "led_bulk_test"@.len() == 13,
        "led_bulk_test"@[0] == 'l',
        "led_bulk_test"@[4] == 'b',
        "led_bulk_test"@[9] == 't',
        "led_lab_result"@.len() == 14,
        "led_lab_result"@[0] == 'l',
        "apply"@.len() == 5,
        "apply"@[0] == 'a',
        "apply"@[1] == 'p',
        "input_levels"@.len() == 12,
        "input_levels"@[0] == 'i',
        "input_level_tip"@.len() == 15,
        "input_level_tip"@[0] == 'i',
        "meter_unavailable"@.len() == 17,
        "meter_unavailable"@[0] == 'm',
        "blink_tip"@.len() == 9,
        "blink_tip"@[0] == 'b',
{
    reveal_strlit("settings");
    reveal_strlit("mute_indicator");
    reveal_strlit("keyboard");
    reveal_strlit("hotkey");
    reveal_strlit("push_to_talk");
    reveal_strlit("record");
    reveal_strlit("press_keys");
    reveal_strlit("sound");
    reveal_strlit("system");
    reveal_strlit("language");
    reveal_strlit("save");
    reveal_strlit("cancel");
    reveal_strlit("muted");
    reveal_strlit("live");
    reveal_strlit("toggle_mute");
    reveal_strlit("reconnect");
    reveal_strlit("resync");
    reveal_strlit("connect_device");
    reveal_strlit("quit");
    reveal_strlit("advanced");
    reveal_strlit("mute_color");
    reveal_strlit("mute_inputs");
    reveal_strlit("mute_display");
    reveal_strlit("auto");
    reveal_strlit("numbers");
    reveal_strlit("numbers_blink");
    reveal_strlit("solo_number_note");
    reveal_strlit("mute_display_tip");
    reveal_strlit("solid_halos");
    reveal_strlit("blink_on_talk");
    reveal_strlit("sensitivity");
    reveal_strlit("sound_feedback");
    reveal_strlit("mute_sound");
    reveal_strlit("unmute_sound");
    reveal_strlit("clear");
    reveal_strlit("browse");
    reveal_strlit("built_in");
    reveal_strlit("start_windows");
    reveal_strlit("start_system");
    reveal_strlit("notifications");
    reveal_strlit("direct_button");
    reveal_strlit("direct_tip");
    reveal_strlit("log_level");
    reveal_strlit("webhooks");
    reveal_strlit("browser_sync");
    reveal_strlit("about");
    reveal_strlit("volume");
    reveal_strlit("play");
    reveal_strlit("on_mute_url");
    reveal_strlit("on_unmute_url");
    reveal_strlit("body");
    reveal_strlit("suppress_sound");
    reveal_strlit("meeting_mute");
    reveal_strlit("port");
    reveal_strlit("source");
    reveal_strlit("about_description");
    reveal_strlit("main");
    reveal_strlit("led_lab");
    reveal_strlit("led_lab_title");
    reveal_strlit("led_lab_intro");
    reveal_strlit("led_snapshot");
    reveal_strlit("led_reset");
    reveal_strlit("led_index");
    reveal_strlit("led_single_test");
    reveal_strlit("led_next_test");
    reveal_strlit("led_bulk_mode");
    reveal_strlit("led_bulk_test");
    reveal_strlit("led_lab_result");
    reveal_strlit("apply");
    reveal_strlit("input_levels");
    reveal_strlit("input_level_tip");
    reveal_strlit("meter_unavailable");
    reveal_strlit("blink_tip");
}

/// The English catalogue, entry by entry: each key shows this text.
pub proof fn lemma_english_catalogue()
    ensures
        english_spec("settings"@) == "Settings"@,
        english_spec("mute_indicator"@) == "Mute Indicator"@,
        english_spec("keyboard"@) == "Keyboard"@,
        english_spec("hotkey"@) == "Hotkey"@,
        english_spec("push_to_talk"@) == "Push-to-talk"@,
        english_spec("record"@) == "Record"@,
        english_spec("press_keys"@) == "Press a key or key combination. Escape cancels."@,
        english_spec("sound"@) == "Sound"@,
        english_spec("system"@) == "System"@,
        english_spec("language"@) == "Language"@,
        english_spec("save"@) == "Save"@,
        english_spec("cancel"@) == "Cancel"@,
        english_spec("muted"@) == "Muted"@,
        english_spec("live"@) == "Live"@,
        english_spec("toggle_mute"@) == "Toggle Mute"@,
        english_spec("reconnect"@) == "Reconnect device"@,
        english_spec("resync"@) == "Re-sync device"@,
        english_spec("connect_device"@) == "Connect a Scarlett 4th Gen device"@,
        english_spec("quit"@) == "Quit"@,
        english_spec("advanced"@) == "Advanced"@,
        english_spec("mute_color"@) == "Mute Color"@,
        english_spec("mute_inputs"@) == "Mute Inputs"@,
        english_spec("mute_display"@) == "Mute display"@,
        english_spec("auto"@) == "Auto"@,
        english_spec("numbers"@) == "Numbers only"@,
        english_spec("numbers_blink"@) == "Blink while muted"@,
        english_spec("solo_number_note"@) == "Solo: mute lights the selected channel number: 1 (LED 4), 2 (LED 12), or both. Unmute restores those numbers to white."@,
        english_spec("mute_display_tip"@) == "Solo: mute uses only the selected channel numbers: 1 is LED 4 and 2 is LED 12. Mute blinking is independent of input level. 2i2 retains its number map."@,
        english_spec("solid_halos"@) == "Solid level halos"@,
        english_spec("blink_on_talk"@) == "Blink on talk"@,
        english_spec("sensitivity"@) == "Sensitivity"@,
        english_spec("sound_feedback"@) == "Sound feedback"@,
        english_spec("mute_sound"@) == "Mute Sound"@,
        english_spec("unmute_sound"@) == "Unmute Sound"@,
        english_spec("clear"@) == "Clear"@,
        english_spec("browse"@) == "Browse..."@,
        english_spec("built_in"@) == "(built-in)"@,
        english_spec("start_windows"@) == "Start with Windows"@,
        english_spec("start_system"@) == "Start with System"@,
        english_spec("notifications"@) == "Desktop notifications"@,
        english_spec("direct_button"@) == "Experimental: Direct button — one press toggles mute, two presses toggle Direct"@,
        english_spec("direct_tip"@) == "Solo only. Direct changes briefly before FocusMute can classify the gesture."@,
        english_spec("log_level"@) == "Log level"@,
        english_spec("webhooks"@) == "Webhooks"@,
        english_spec("browser_sync"@) == "Browser sync"@,
        english_spec("about"@) == "About"@,
        english_spec("volume"@) == "Volume"@,
        english_spec("play"@) == "Play"@,
        english_spec("on_mute_url"@) == "On mute URL"@,
        english_spec("on_unmute_url"@) == "On unmute URL"@,
        english_spec("body"@) == "Body"@,
        english_spec("suppress_sound"@) == "Suppress sound on mute/unmute"@,
        english_spec("meeting_mute"@) == "Let FocusMute mute/unmute the meeting"@,
        english_spec("port"@) == "Port"@,
        english_spec("source"@) == "Source"@,
        english_spec("about_description"@) == "Hotkey mute control for Focusrite Scarlett 4th Gen interfaces"@,
        english_spec("main"@) == "Main"@,
        english_spec("led_lab"@) == "LED Lab"@,
        english_spec("led_lab_title"@) == "Solo indicator laboratory"@,
        english_spec("led_lab_intro"@) == "Map from 20-ledtest.md. Tests are available for numbers 1 (4), 2 (12), and transient halos. Button and bulk tests are disabled: the command buffer cannot reliably restore their colours. Test colour comes from Main settings. A snapshot is a command buffer, not actual panel colours. Reconnect USB to recover from earlier bulk tests."@,
        english_spec("led_snapshot"@) == "Read state snapshot"@,
        english_spec("led_reset"@) == "Restore selected numbers to white"@,
        english_spec("led_index"@) == "LED / slot index"@,
        english_spec("led_single_test"@) == "Test one LED"@,
        english_spec("led_next_test"@) == "Next LED"@,
        english_spec("led_bulk_mode"@) == "Bulk test mode"@,
        english_spec("led_bulk_test"@) == "Test bulk slot"@,
        english_spec("led_lab_result"@) == "Command result"@,
        english_spec("apply"@) == "Apply"@,
        english_spec("input_levels"@) == "Active input levels"@,
        english_spec("input_level_tip"@) == "Live signal from selected Scarlett inputs. This is input signal, not the Windows mute state."@,
        english_spec("meter_unavailable"@) == "No device meter data"@,
        english_spec("blink_tip"@) == "When Windows mute is on and a selected input exceeds the threshold, the mute indicator blinks to warn that you are talking while muted."@,
{
    lemma_catalogue_key_shapes();
}

/// The tray's mute status: in English `muted` reads "Muted" and `live`
/// reads "Live", in Russian "Микрофон выключен" and "Микрофон включён"; in either language the
/// two states never read alike.
pub proof fn lemma_mute_status_texts()
    ensures
        tr_spec("en"@, "muted"@) == "Muted"@,
        tr_spec("en"@, "live"@) == "Live"@,
        tr_spec("ru"@, "muted"@) == "Микрофон выключен"@,
        tr_spec("ru"@, "live"@) == "Микрофон включён"@,
        tr_spec("en"@, "muted"@) != tr_spec("en"@, "live"@),
        tr_spec("ru"@, "muted"@) != tr_spec("ru"@, "live"@),
{
    lemma_catalogue_key_shapes();
    reveal_strlit("en");
    reveal_strlit("ru");
    reveal_strlit("Muted");
    reveal_strlit("Live");
    reveal_strlit("Микрофон выключен");
    reveal_strlit("Микрофон включён");
    assert(!is_russian("en"@)) by {
        assert(ascii_lower_code("en"@[0]) != ascii_lower_code("ru"@[0]));
    }
    assert(is_russian("ru"@));
    assert("Muted"@.len() != "Live"@.len());
    assert("Микрофон выключен"@.len() != "Микрофон включён"@.len());
}

/// The Russian catalogue, entry by entry: each key shows this text.
pub proof fn lemma_russian_catalogue()
    ensures
        russian_text("settings"@) == Some("Настройки"@),
        russian_text("mute_indicator"@) == Some("Индикация mute"@),
        russian_text("keyboard"@) == Some("Клавиатура"@),
        russian_text("hotkey"@) == Some("Горячая клавиша"@),
        russian_text("push_to_talk"@) == Some("Нажми и говори"@),
        russian_text("record"@) == Some("Записать"@),
        russian_text("press_keys"@) == Some("Нажмите клавишу или сочетание. Escape — отмена."@),
        russian_text("sound"@) == Some("Звук"@),
        russian_text("system"@) == Some("Система"@),
        russian_text("language"@) == Some("Язык"@),
        russian_text("save"@) == Some("Сохранить"@),
        russian_text("cancel"@) == Some("Отмена"@),
        russian_text("muted"@) == Some("Микрофон выключен"@),
        russian_text("live"@) == Some("Микрофон включён"@),
        russian_text("toggle_mute"@) == Some("Переключить mute"@),
        russian_text("reconnect"@) == Some("Переподключить устройство"@),
        russian_text("resync"@) == Some("Синхронизировать устройство"@),
        russian_text("connect_device"@) == Some("Подключите Scarlett 4th Gen"@),
        russian_text("quit"@) == Some("Выход"@),
        russian_text("advanced"@) == Some("Дополнительно"@),
        russian_text("mute_color"@) == Some("Цвет mute"@),
        russian_text("mute_inputs"@) == Some("Входы mute"@),
        russian_text("mute_display"@) == Some("Индикация mute"@),
        russian_text("auto"@) == Some("Автоматически"@),
        russian_text("numbers"@) == Some("Только номера"@),
        russian_text("numbers_blink"@) == Some("Мигание при mute"@),
        russian_text("solo_number_note"@) == Some("Solo: mute подсвечивает выбранный номер канала: 1 (LED 4), 2 (LED 12) или оба. После unmute номера возвращаются в белый цвет."@),
        russian_text("mute_display_tip"@) == Some("Solo: mute использует только номера выбранных каналов: 1 — LED 4, 2 — LED 12. Мигание при mute не зависит от уровня звука. 2i2 использует прежнюю карту номеров."@),
        russian_text("solid_halos"@) == Some("Сплошные кольца уровня"@),
        russian_text("blink_on_talk"@) == Some("Мигание при разговоре"@),
        russian_text("sensitivity"@) == Some("Чувствительность"@),
        russian_text("sound_feedback"@) == Some("Звуковой отклик"@),
        russian_text("mute_sound"@) == Some("Звук выключения"@),
        russian_text("unmute_sound"@) == Some("Звук включения"@),
        russian_text("clear"@) == Some("Очистить"@),
        russian_text("browse"@) == Some("Обзор..."@),
        russian_text("built_in"@) == Some("(встроенный)"@),
        russian_text("start_windows"@) == Some("Запускать вместе с Windows"@),
        russian_text("start_system"@) == Some("Запускать вместе с системой"@),
        russian_text("notifications"@) == Some("Уведомления рабочего стола"@),
        russian_text("direct_button"@) == Some("Экспериментально: Direct — одно нажатие переключает mute, два — Direct"@),
        russian_text("direct_tip"@) == Some("Только Solo. Сначала устройство кратко меняет Direct, затем FocusMute распознаёт жест."@),
        russian_text("log_level"@) == Some("Уровень журнала"@),
        russian_text("webhooks"@) == Some("Вебхуки"@),
        russian_text("browser_sync"@) == Some("Синхронизация с браузером"@),
        russian_text("about"@) == Some("О программе"@),
        russian_text("volume"@) == Some("Громкость"@),
        russian_text("play"@) == Some("Воспроизвести"@),
        russian_text("on_mute_url"@) == Some("URL при mute"@),
        russian_text("on_unmute_url"@) == Some("URL при unmute"@),
        russian_text("body"@) == Some("Тело"@),
        russian_text("suppress_sound"@) == Some("Не воспроизводить звук при mute/unmute"@),
        russian_text("meeting_mute"@) == Some("Переключать mute конференции из FocusMute"@),
        russian_text("port"@) == Some("Порт"@),
        russian_text("source"@) == Some("Исходный код"@),
        russian_text("about_description"@) == Some("Управление mute через горячие клавиши для Focusrite Scarlett 4th Gen"@),
        russian_text("main"@) == Some("Основные"@),
        russian_text("led_lab"@) == Some("Проверка LED"@),
        russian_text("led_lab_title"@) == Some("Лаборатория индикаторов Solo"@),
        russian_text("led_lab_intro"@) == Some("Карта из 20-ledtest.md. Доступны номера 1 (4), 2 (12) и кратковременные тесты halo. Тесты кнопок и bulk отключены: их цвета нельзя достоверно восстановить из массива команд. Цвет берётся из основных настроек. Снимок — буфер команд, не фактические цвета. После старых bulk-тестов восстановите панель переподключением USB."@),
        russian_text("led_snapshot"@) == Some("Снимок состояния"@),
        russian_text("led_reset"@) == Some("Вернуть выбранные номера в белый"@),
        russian_text("led_index"@) == Some("Индекс LED / slot"@),
        russian_text("led_single_test"@) == Some("Проверить один LED"@),
        russian_text("led_next_test"@) == Some("Следующий LED"@),
        russian_text("led_bulk_mode"@) == Some("Режим bulk-проверки"@),
        russian_text("led_bulk_test"@) == Some("Проверить bulk-slot"@),
        russian_text("led_lab_result"@) == Some("Результат команды"@),
        russian_text("apply"@) == Some("Применить"@),
        russian_text("input_levels"@) == Some("Уровни активных входов"@),
        russian_text("input_level_tip"@) == Some("Живой уровень сигнала с выбранных входов Scarlett. Он показывает сигнал на входе, а не состояние mute Windows."@),
        russian_text("meter_unavailable"@) == Some("Нет данных от устройства"@),
        russian_text("blink_tip"@) == Some("Когда Windows mute включён и сигнал выбранного входа превышает порог, индикатор mute мигает. Это предупреждает, что вы говорите при выключенном микрофоне."@),
{
    lemma_catalogue_key_shapes();
}

} // verus!
