//! The rules of the settings dialog: the talk-sensitivity presets, which
//! inputs the mute indicator uses, the form fields taken from the
//! configuration, hotkey capture from key presses, and the checks of the
//! browser-sync port and of the two hotkeys.
use vstd::prelude::*;
use vstd::string::StringExecFns;
use crate::i18n::is_russian;
use crate::text::{
    chars_equal, chars_of, decimal, eq_ignore_ascii_case, lemma_decimal_injective,
    lemma_decimal_len, lemma_parse_u16_decimal, parse_u16, parse_u16_spec, push_decimal,
    string_push, trim, trim_spec,
};

verus! {

/// Muted-talk blink sensitivity presets shown in the settings dialog,
/// mapped to raw `talk_threshold` meter values (higher sensitivity =
/// lower threshold). The raw `[indicator].talk_threshold` TOML key
/// remains the escape hatch for setups outside these presets.
pub const TALK_SENSITIVITY_PRESETS: [(&'static str, u32); 3] = [
    ("Low", 500),
    ("Medium", 250),
    ("High", 100),
];

/// The name of the first preset whose threshold is `threshold`, if any.
pub open spec fn preset_name(threshold: u32) -> Option<Seq<char>> {
    if TALK_SENSITIVITY_PRESETS[0].1 == threshold {
        Some(TALK_SENSITIVITY_PRESETS[0].0@)
    } else if TALK_SENSITIVITY_PRESETS[1].1 == threshold {
        Some(TALK_SENSITIVITY_PRESETS[1].0@)
    } else if TALK_SENSITIVITY_PRESETS[2].1 == threshold {
        Some(TALK_SENSITIVITY_PRESETS[2].0@)
    } else {
        None
    }
}

/// The sensitivity text for `threshold`: the preset's name, or
/// `Custom (n)` with the threshold in decimal.
pub open spec fn sensitivity_text_spec(threshold: u32) -> Seq<char> {
    match preset_name(threshold) {
        Some(name) => name,
        None => "Custom ("@ + decimal(threshold as nat) + ")"@,
    }
}

/// Display text for the sensitivity combo: the preset name when the current
/// threshold matches one, otherwise "Custom (n)" — a hand-edited TOML value
/// is shown as-is and never silently replaced.
pub fn sensitivity_text(threshold: u32) -> (text: String)
    ensures
        text@ == sensitivity_text_spec(threshold),
{
    let mut i: usize = 0;
    while i < 3
        invariant
            i <= 3,
            forall|j: int| 0 <= j < i ==> TALK_SENSITIVITY_PRESETS[j].1 != threshold,
        decreases 3 - i,
    {
        let (name, value) = TALK_SENSITIVITY_PRESETS[i];
        if value == threshold {
            return String::from_str(name);
        }
        i = i + 1;
    }
    let mut text = String::from_str("Custom (");
    push_decimal(&mut text, threshold as u64);
    text.append(")");
    text
}

/// The zero-based inputs that the mute indicator uses: every input for
/// "All" (index 0), for the "all inputs" entry after the single inputs
/// (index `input_count + 1`, offered from two inputs on), or when there are
/// none; otherwise only input `mute_inputs_index - 1`.
pub open spec fn active_input_indices_spec(input_count: usize, mute_inputs_index: usize) -> Seq<
    usize,
> {
    if input_count == 0 || mute_inputs_index == 0 || (input_count >= 2 && mute_inputs_index
        == input_count + 1) {
        Seq::new(input_count as nat, |i: int| i as usize)
    } else {
        seq![(mute_inputs_index - 1) as usize]
    }
}

/// The zero-based inputs selected by the mute-inputs combo.
pub fn active_input_indices(input_count: usize, mute_inputs_index: usize) -> (inputs: Vec<usize>)
    ensures
        inputs@ == active_input_indices_spec(input_count, mute_inputs_index),
{
    if input_count == 0 || mute_inputs_index == 0 || (input_count >= 2 && mute_inputs_index - 1
        == input_count) {
        let mut all: Vec<usize> = Vec::new();
        let mut i: usize = 0;
        while i < input_count
            invariant
                i <= input_count,
                all@ == Seq::new(i as nat, |j: int| j as usize),
            decreases input_count - i,
        {
            all.push(i);
            i = i + 1;
        }
        return all;
    }
    let mut one: Vec<usize> = Vec::new();
    one.push(mute_inputs_index - 1);
    one
}

/// Each entry of the mute-inputs combo selects what it names: "All"
/// (entry 0) and, from two inputs on, the entry after the single inputs
/// select every input in order; the single entry `m` selects input `m - 1`
/// alone.
pub proof fn lemma_mute_inputs_entries(input_count: usize, mute_inputs_index: usize)
    ensures
        1 <= mute_inputs_index <= input_count ==> active_input_indices_spec(
            input_count,
            mute_inputs_index,
        ) == seq![(mute_inputs_index - 1) as usize],
        mute_inputs_index == 0 || (input_count >= 2 && mute_inputs_index == input_count + 1) ==> {
            let all = active_input_indices_spec(input_count, mute_inputs_index);
            &&& all.len() == input_count
            &&& forall|i: int| 0 <= i < input_count ==> #[trigger] all[i] == i
        },
{
}

/// The error shown for a browser-sync port that is not a number.
pub open spec fn port_error_message(raw: Seq<char>) -> Seq<char> {
    "Invalid browser sync port \""@ + raw + "\". Enter a number (0 = disabled, e.g. 9736)"@
}

/// The browser-sync port that the field `raw` holds: `0` (disabled) when it
/// is empty or blank, the number when it parses as a 16-bit number after
/// trimming, and an error naming the text as typed otherwise.
pub open spec fn browser_sync_port_spec(raw: Seq<char>) -> Result<u16, Seq<char>> {
    let t = trim_spec(raw);
    if t.len() == 0 {
        Ok(0)
    } else {
        match parse_u16_spec(t) {
            Some(port) => Ok(port),
            None => Err(port_error_message(raw)),
        }
    }
}

/// Parse browser_sync_port from string (empty or "0" = disabled).
pub fn parse_browser_sync_port(raw: &str) -> (r: Result<u16, String>)
    ensures
        match r {
            Ok(port) => browser_sync_port_spec(raw@) == Ok::<u16, Seq<char>>(port),
            Err(message) => browser_sync_port_spec(raw@) == Err::<u16, Seq<char>>(message@),
        },
{
    let t = trim(raw);
    if t.as_str().is_empty() {
        return Ok(0);
    }
    match parse_u16(t.as_str()) {
        Some(port) => Ok(port),
        None => {
            let mut message = String::from_str("Invalid browser sync port \"");
            message.append(raw);
            message.append("\". Enter a number (0 = disabled, e.g. 9736)");
            Err(message)
        },
    }
}

/// The id of the hotkey that `global_hotkey` parses from `text`, or nothing
/// when the text does not parse.
pub uninterp spec fn hotkey_id(text: Seq<char>) -> Option<u32>;

/// `global_hotkey`'s `HotKey::from_str`, then `HotKey::id` of the result.
/// The contract claims only that the outcome depends on the text alone.
#[verifier::external_body]
fn parse_hotkey_id(text: &str) -> (r: Option<u32>)
    ensures
        r == hotkey_id(text@),
{
    match text.parse::<global_hotkey::hotkey::HotKey>() {
        Ok(hotkey) => Some(hotkey.id()),
        Err(_) => None,
    }
}

/// The error for a toggle hotkey that does not parse.
pub open spec fn invalid_hotkey_message() -> Seq<char> {
    "Invalid hotkey. Examples: Ctrl+Shift+M, Alt+F1"@
}

/// The error for a push-to-talk hotkey that does not parse.
pub open spec fn invalid_ptt_message() -> Seq<char> {
    "Invalid push-to-talk hotkey. Examples: Ctrl+Space, Alt+F2"@
}

/// The error for a push-to-talk hotkey equal to the toggle hotkey.
pub open spec fn same_hotkey_message() -> Seq<char> {
    "Push-to-talk hotkey must be different from the toggle hotkey."@
}

/// The hotkey errors, in order, given whether each field is non-blank and
/// what parsing it gave: a non-blank toggle hotkey that does not parse; a
/// non-blank push-to-talk hotkey that does not parse, or that parses to the
/// same hotkey as the toggle one.
pub open spec fn hotkey_errors_spec(
    toggle_given: bool,
    toggle_id: Option<u32>,
    ptt_given: bool,
    ptt_id: Option<u32>,
) -> Seq<Seq<char>> {
    let first = if toggle_given && toggle_id is None {
        seq![invalid_hotkey_message()]
    } else {
        Seq::empty()
    };
    let second = if !ptt_given {
        Seq::empty()
    } else {
        match ptt_id {
            None => seq![invalid_ptt_message()],
            Some(p) => if toggle_id == Some(p) {
                seq![same_hotkey_message()]
            } else {
                Seq::empty()
            },
        }
    };
    first + second
}

/// The views of a list of strings.
pub open spec fn views(v: Seq<String>) -> Seq<Seq<char>> {
    v.map_values(|s: String| s@)
}

/// The hotkey errors for the parse outcomes of the two fields.
pub fn hotkey_errors_from(
    toggle_given: bool,
    toggle_id: Option<u32>,
    ptt_given: bool,
    ptt_id: Option<u32>,
) -> (errors: Vec<String>)
    ensures
        views(errors@) == hotkey_errors_spec(toggle_given, toggle_id, ptt_given, ptt_id),
{
    let mut errors: Vec<String> = Vec::new();
    if toggle_given && toggle_id.is_none() {
        errors.push(String::from_str("Invalid hotkey. Examples: Ctrl+Shift+M, Alt+F1"));
    }
    if ptt_given {
        match ptt_id {
            None => {
                errors.push(
                    String::from_str("Invalid push-to-talk hotkey. Examples: Ctrl+Space, Alt+F2"),
                );
            },
            Some(p) => {
                let same = match toggle_id {
                    Some(t) => t == p,
                    None => false,
                };
                if same {
                    errors.push(
                        String::from_str(
                            "Push-to-talk hotkey must be different from the toggle hotkey.",
                        ),
                    );
                }
            },
        }
    }
    assert(views(errors@) =~= hotkey_errors_spec(toggle_given, toggle_id, ptt_given, ptt_id));
    errors
}

/// The hotkey errors of the dialog's two hotkey fields, each trimmed: the
/// toggle hotkey is parsed even when blank, the push-to-talk hotkey only
/// when not blank (blank means disabled).
pub fn hotkey_errors(hotkey: &str, ptt_hotkey: &str) -> (errors: Vec<String>)
    ensures
        views(errors@) == hotkey_errors_spec(
            trim_spec(hotkey@).len() > 0,
            hotkey_id(trim_spec(hotkey@)),
            trim_spec(ptt_hotkey@).len() > 0,
            hotkey_id(trim_spec(ptt_hotkey@)),
        ),
{
    let toggle = trim(hotkey);
    let toggle_id = parse_hotkey_id(toggle.as_str());
    let ptt = trim(ptt_hotkey);
    let ptt_given = !ptt.as_str().is_empty();
    let ptt_id = if ptt_given {
        parse_hotkey_id(ptt.as_str())
    } else {
        None
    };
    let toggle_given = !toggle.as_str().is_empty();
    let errors = hotkey_errors_from(toggle_given, toggle_id, ptt_given, ptt_id);
    assert(hotkey_errors_spec(toggle_given, toggle_id, ptt_given, ptt_id) =~= hotkey_errors_spec(
        trim_spec(hotkey@).len() > 0,
        hotkey_id(trim_spec(hotkey@)),
        trim_spec(ptt_hotkey@).len() > 0,
        hotkey_id(trim_spec(ptt_hotkey@)),
    ));
    errors
}


/// Parsing the decimal text of any port gives that port back.
pub proof fn lemma_browser_sync_port_round_trip(port: u16)
    ensures
        browser_sync_port_spec(decimal(port as nat)) == Ok::<u16, Seq<char>>(port),
{
    lemma_parse_u16_decimal(port);
    lemma_decimal_len(port as nat);
}

/// The sensitivity text never hides a threshold: different thresholds
/// always show different texts, so a hand-edited value is never shown as a
/// preset or as another value.
pub proof fn lemma_sensitivity_text_injective(a: u32, b: u32)
    requires
        sensitivity_text_spec(a) == sensitivity_text_spec(b),
    ensures
        a == b,
{
    reveal_strlit("Low");
    reveal_strlit("Medium");
    reveal_strlit("High");
    reveal_strlit("Custom (");
    reveal_strlit(")");
    lemma_decimal_len(a as nat);
    lemma_decimal_len(b as nat);
    let ta = sensitivity_text_spec(a);
    assert(TALK_SENSITIVITY_PRESETS[0].0@ == "Low"@);
    assert(TALK_SENSITIVITY_PRESETS[1].0@ == "Medium"@);
    assert(TALK_SENSITIVITY_PRESETS[2].0@ == "High"@);
    assert(TALK_SENSITIVITY_PRESETS[0].1 == 500);
    assert(TALK_SENSITIVITY_PRESETS[1].1 == 250);
    assert(TALK_SENSITIVITY_PRESETS[2].1 == 100);
    assert(preset_name(a) is None ==> ta.len() >= 10);
    assert(preset_name(b) is None ==> sensitivity_text_spec(b).len() >= 10);
    if preset_name(a) is None && preset_name(b) is None {
        let da = decimal(a as nat);
        let db = decimal(b as nat);
        assert(ta.subrange(8, ta.len() - 1) =~= da);
        assert(sensitivity_text_spec(b).subrange(8, ta.len() - 1) =~= db);
        lemma_decimal_injective(a as nat, b as nat);
    }
}


/// `raw` names a key that only modifies another one.
pub open spec fn is_modifier_key(raw: Seq<char>) -> bool {
    ||| raw == "ShiftLeft"@
    ||| raw == "ShiftRight"@
    ||| raw == "ControlLeft"@
    ||| raw == "ControlRight"@
    ||| raw == "AltLeft"@
    ||| raw == "AltRight"@
    ||| raw == "SuperLeft"@
    ||| raw == "SuperRight"@
}

/// `part` followed by `+` when `held`, nothing otherwise.
pub open spec fn modifier_prefix(held: bool, part: Seq<char>) -> Seq<char> {
    if held {
        part + "+"@
    } else {
        Seq::empty()
    }
}

/// What pressing the key named `raw` does while capturing a hotkey: a
/// modifier key alone captures nothing yet (`None`), Escape cancels the
/// capture (`Some(None)`), and any other key captures the held modifiers,
/// in the order Ctrl, Alt, Shift, then the key, joined with `+`.
pub open spec fn captured_hotkey_spec(raw: Seq<char>, ctrl: bool, alt: bool, shift: bool) -> Option<
    Option<Seq<char>>,
> {
    if is_modifier_key(raw) {
        None
    } else if raw == "Escape"@ {
        Some(None)
    } else {
        Some(Some(pressed_hotkey_spec(raw, ctrl, alt, shift, false)))
    }
}

/// The hotkey captured from one key press: `raw` is the key's name, and
/// `ctrl` (Ctrl or Command), `alt` and `shift` the modifiers held with it.
pub fn captured_hotkey(raw: &str, ctrl: bool, alt: bool, shift: bool) -> (r: Option<Option<String>>)
    ensures
        match r {
            None => captured_hotkey_spec(raw@, ctrl, alt, shift) is None,
            Some(None) => captured_hotkey_spec(raw@, ctrl, alt, shift) == Some(
                None::<Seq<char>>,
            ),
            Some(Some(s)) => captured_hotkey_spec(raw@, ctrl, alt, shift) == Some(Some(s@)),
        },
{
    let k = chars_of(raw);
    if chars_equal(&k, "ShiftLeft") || chars_equal(&k, "ShiftRight") || chars_equal(
        &k,
        "ControlLeft",
    ) || chars_equal(&k, "ControlRight") || chars_equal(&k, "AltLeft") || chars_equal(
        &k,
        "AltRight",
    ) || chars_equal(&k, "SuperLeft") || chars_equal(&k, "SuperRight") {
        return None;
    }
    if chars_equal(&k, "Escape") {
        return Some(None);
    }
    Some(Some(pressed_hotkey(raw, ctrl, alt, shift, false)))
}


/// The name of the Windows virtual key `key` as a hotkey token, for the keys
/// that a hotkey can use: Pause, Space, the navigation keys, F1 to F24,
/// digits and letters.
pub open spec fn virtual_key_name_spec(key: i32) -> Option<Seq<char>> {
    if key == 0x13 {
        Some("Pause"@)
    } else if key == 0x20 {
        Some("Space"@)
    } else if key == 0x21 {
        Some("PageDown"@)
    } else if key == 0x22 {
        Some("PageUp"@)
    } else if key == 0x23 {
        Some("End"@)
    } else if key == 0x24 {
        Some("Home"@)
    } else if key == 0x25 {
        Some("Left"@)
    } else if key == 0x26 {
        Some("Up"@)
    } else if key == 0x27 {
        Some("Right"@)
    } else if key == 0x28 {
        Some("Down"@)
    } else if key == 0x2D {
        Some("Insert"@)
    } else if key == 0x2E {
        Some("Delete"@)
    } else if 0x70 <= key <= 0x87 {
        Some("F"@ + decimal((key - 0x6F) as nat))
    } else if (0x30 <= key <= 0x39) || (0x41 <= key <= 0x5A) {
        Some(seq![key as char])
    } else {
        None
    }
}

/// The hotkey token of the Windows virtual key `key`, if a hotkey can use it.
pub fn virtual_key_name(key: i32) -> (name: Option<String>)
    ensures
        match name {
            Some(s) => virtual_key_name_spec(key) == Some(s@),
            None => virtual_key_name_spec(key) is None,
        },
{
    let fixed: &str = match key {
        0x13 => "Pause",
        0x20 => "Space",
        0x21 => "PageDown",
        0x22 => "PageUp",
        0x23 => "End",
        0x24 => "Home",
        0x25 => "Left",
        0x26 => "Up",
        0x27 => "Right",
        0x28 => "Down",
        0x2D => "Insert",
        0x2E => "Delete",
        _ => "",
    };
    if key == 0x13 || key == 0x20 || (0x21 <= key && key <= 0x28) || key == 0x2D || key == 0x2E {
        return Some(String::from_str(fixed));
    }
    if 0x70 <= key && key <= 0x87 {
        let mut name = String::from_str("F");
        push_decimal(&mut name, (key - 0x6F) as u64);
        return Some(name);
    }
    if (0x30 <= key && key <= 0x39) || (0x41 <= key && key <= 0x5A) {
        let mut name = String::new();
        string_push(&mut name, (key as u8) as char);
        assert(name@ =~= seq![key as char]);
        return Some(name);
    }
    None
}

/// The hotkey text of a key pressed with the given modifiers held: the
/// modifiers in the order Ctrl, Alt, Shift, Super, then the key, joined
/// with `+`.
pub open spec fn pressed_hotkey_spec(
    key: Seq<char>,
    ctrl: bool,
    alt: bool,
    shift: bool,
    super_key: bool,
) -> Seq<char> {
    modifier_prefix(ctrl, "Ctrl"@) + modifier_prefix(alt, "Alt"@) + modifier_prefix(shift, "Shift"@)
        + modifier_prefix(super_key, "Super"@) + key
}

/// The hotkey text of the key `key` pressed with the given modifiers held.
pub fn pressed_hotkey(key: &str, ctrl: bool, alt: bool, shift: bool, super_key: bool) -> (text:
    String)
    ensures
        text@ == pressed_hotkey_spec(key@, ctrl, alt, shift, super_key),
{
    let mut text = String::new();
    if ctrl {
        text.append("Ctrl+");
    }
    if alt {
        text.append("Alt+");
    }
    if shift {
        text.append("Shift+");
    }
    if super_key {
        text.append("Super+");
    }
    text.append(key);
    proof {
        reveal_strlit("Ctrl+");
        reveal_strlit("Ctrl");
        reveal_strlit("Alt+");
        reveal_strlit("Alt");
        reveal_strlit("Shift+");
        reveal_strlit("Shift");
        reveal_strlit("Super+");
        reveal_strlit("Super");
        reveal_strlit("+");
        assert(text@ =~= pressed_hotkey_spec(key@, ctrl, alt, shift, super_key));
    }
    text
}


/// The indicator mode the dialog shows for the configured `mode`: the
/// retired modes `halos_solid` and `numbers_blink` show as `numbers`.
pub open spec fn dialog_indicator_mode_spec(mode: Seq<char>) -> Seq<char> {
    if mode == "halos_solid"@ || mode == "numbers_blink"@ {
        "numbers"@
    } else {
        mode
    }
}

/// The dialog never shows a retired indicator mode: `halos_solid` and
/// `numbers_blink` show as `numbers`, every other mode as it is, so showing
/// a shown mode again changes nothing.
pub proof fn lemma_dialog_shows_no_retired_mode(mode: Seq<char>)
    ensures
        dialog_indicator_mode_spec(mode) != "halos_solid"@,
        dialog_indicator_mode_spec(mode) != "numbers_blink"@,
        dialog_indicator_mode_spec("halos_solid"@) == "numbers"@,
        dialog_indicator_mode_spec("numbers_blink"@) == "numbers"@,
        mode != "halos_solid"@ && mode != "numbers_blink"@ ==> dialog_indicator_mode_spec(mode)
            == mode,
        dialog_indicator_mode_spec(dialog_indicator_mode_spec(mode)) == dialog_indicator_mode_spec(
            mode,
        ),
{
    reveal_strlit("numbers");
    reveal_strlit("halos_solid");
    reveal_strlit("numbers_blink");
    assert("numbers"@.len() == 7);
    assert("halos_solid"@.len() == 11);
    assert("numbers_blink"@.len() == 13);
}

/// The dialog's indicator mode and "blink while muted" box for the
/// configured mode and flag: `numbers_blink` turns the box on.
pub fn dialog_indicator_fields(mode: &str, blink_while_muted: bool) -> (fields: (String, bool))
    ensures
        fields.0@ == dialog_indicator_mode_spec(mode@),
        fields.1 == (blink_while_muted || mode@ == "numbers_blink"@),
{
    let k = chars_of(mode);
    let numbers_blink = chars_equal(&k, "numbers_blink");
    let shown = if chars_equal(&k, "halos_solid") || numbers_blink {
        String::from_str("numbers")
    } else {
        String::from_str(mode)
    };
    (shown, blink_while_muted || numbers_blink)
}

/// The mute-inputs choices offered for a Solo's two inputs, in Russian when
/// `language` is `ru` in any ASCII case and in English otherwise.
pub open spec fn solo_mute_input_items_spec(language: Seq<char>) -> Seq<Seq<char>> {
    if is_russian(language) {
        seq!["Все"@, "Вход 1 — инструмент"@, "Вход 2 — микрофон"@, "Входы 1 + 2"@]
    } else {
        seq!["All"@, "Input 1 — instrument"@, "Input 2 — microphone"@, "Inputs 1 + 2"@]
    }
}

/// The mute-inputs choices for a Solo, whose two inputs are an instrument
/// input and a microphone input.
pub fn solo_mute_input_items(language: &str) -> (items: Vec<String>)
    ensures
        views(items@) == solo_mute_input_items_spec(language@),
{
    let mut items: Vec<String> = Vec::new();
    if eq_ignore_ascii_case(language, "ru") {
        items.push(String::from_str("Все"));
        items.push(String::from_str("Вход 1 — инструмент"));
        items.push(String::from_str("Вход 2 — микрофон"));
        items.push(String::from_str("Входы 1 + 2"));
    } else {
        items.push(String::from_str("All"));
        items.push(String::from_str("Input 1 — instrument"));
        items.push(String::from_str("Input 2 — microphone"));
        items.push(String::from_str("Inputs 1 + 2"));
    }
    assert(views(items@) =~= solo_mute_input_items_spec(language@));
    items
}

/// The note shown after Apply saved the settings, in the dialog's language.
pub open spec fn apply_message_spec(language: Seq<char>) -> Seq<char> {
    if is_russian(language) {
        "Настройки сохранены. Они начнут действовать после закрытия окна."@
    } else {
        "Saved. Changes apply when this window closes."@
    }
}

/// The note shown after Apply saved the settings.
pub fn apply_message(language: &str) -> (message: &'static str)
    ensures
        message@ == apply_message_spec(language@),
{
    if eq_ignore_ascii_case(language, "ru") {
        "Настройки сохранены. Они начнут действовать после закрытия окна."
    } else {
        "Saved. Changes apply when this window closes."
    }
}

/// Which hotkey field a key press is being captured for.
#[derive(Clone, Copy, PartialEq, Eq, Debug)]
pub enum CaptureTarget {
    Toggle,
    PushToTalk,
}

/// The dialog's two hotkey fields and the capture in progress, if any.
pub struct HotkeyFields {
    pub hotkey: String,
    pub ptt_hotkey: String,
    pub capturing: Option<CaptureTarget>,
}

impl HotkeyFields {
    /// Takes the outcome of one frame's key presses while capturing:
    /// nothing captured leaves everything as it is; Escape (`Some(None)`)
    /// ends the capture; a hotkey (`Some(Some(text))`) goes into the field
    /// being captured and ends the capture. Without a capture in progress
    /// nothing changes.
    pub fn apply_capture(&mut self, captured: Option<Option<String>>)
        ensures
            old(self).capturing is None || captured is None ==> final(self).hotkey@ == old(
                self,
            ).hotkey@ && final(self).ptt_hotkey@ == old(self).ptt_hotkey@ && final(self).capturing
                == old(self).capturing,
            old(self).capturing is Some && captured is Some ==> final(self).capturing is None,
            old(self).capturing == Some(CaptureTarget::Toggle) ==> final(self).ptt_hotkey@ == old(
                self,
            ).ptt_hotkey@ && final(self).hotkey@ == match captured {
                Some(Some(text)) => text@,
                _ => old(self).hotkey@,
            },
            old(self).capturing == Some(CaptureTarget::PushToTalk) ==> final(self).hotkey@ == old(
                self,
            ).hotkey@ && final(self).ptt_hotkey@ == match captured {
                Some(Some(text)) => text@,
                _ => old(self).ptt_hotkey@,
            },
    {
        let target = match self.capturing {
            Some(target) => target,
            None => {
                return;
            },
        };
        if let Some(value) = captured {
            if let Some(value) = value {
                match target {
                    CaptureTarget::Toggle => self.hotkey = value,
                    CaptureTarget::PushToTalk => self.ptt_hotkey = value,
                }
            }
            self.capturing = None;
        }
    }
}

/// The id of the toggle hotkey as the dialog registers it: the configured
/// text parsed as it stands, without trimming.
pub fn registered_hotkey_id(hotkey: &str) -> (id: Option<u32>)
    ensures
        id == hotkey_id(hotkey@),
{
    parse_hotkey_id(hotkey)
}

/// The views of a port outcome.
pub open spec fn port_view(port: Result<u16, String>) -> Result<u16, Seq<char>> {
    match port {
        Ok(p) => Ok(p),
        Err(m) => Err(m@),
    }
}

/// The outcome of checking the dialog's form: a port that does not parse is
/// reported alone; otherwise the configuration's own errors come first and
/// the hotkey errors after them, and the form is accepted, with its port,
/// when there are none.
pub open spec fn form_check_spec(
    port: Result<u16, Seq<char>>,
    config_errors: Seq<Seq<char>>,
    hotkey_errors: Seq<Seq<char>>,
) -> Result<u16, Seq<Seq<char>>> {
    match port {
        Err(message) => Err(seq![message]),
        Ok(p) => if config_errors.len() + hotkey_errors.len() == 0 {
            Ok(p)
        } else {
            Err(config_errors + hotkey_errors)
        },
    }
}

/// The views of a form outcome.
pub open spec fn form_view(r: Result<u16, Vec<String>>) -> Result<u16, Seq<Seq<char>>> {
    match r {
        Ok(p) => Ok(p),
        Err(errors) => Err(views(errors@)),
    }
}

/// Checks the dialog's form once the port was parsed and the configuration
/// built from the form validated (`config_errors`): the port error alone, or
/// every error in order, or the port of an accepted form.
pub fn form_check(
    port: Result<u16, String>,
    config_errors: Vec<String>,
    hotkey: &str,
    ptt_hotkey: &str,
) -> (r: Result<u16, Vec<String>>)
    ensures
        form_view(r) == form_check_spec(
            port_view(port),
            views(config_errors@),
            hotkey_errors_spec(
                trim_spec(hotkey@).len() > 0,
                hotkey_id(trim_spec(hotkey@)),
                trim_spec(ptt_hotkey@).len() > 0,
                hotkey_id(trim_spec(ptt_hotkey@)),
            ),
        ),
{
    let p = match port {
        Ok(p) => p,
        Err(message) => {
            let mut errors: Vec<String> = Vec::new();
            errors.push(message);
            assert(views(errors@) =~= seq![port_view(port)->Err_0]);
            return Err(errors);
        },
    };
    let mut errors = config_errors;
    let mut more = hotkey_errors(hotkey, ptt_hotkey);
    let ghost first = views(errors@);
    let ghost second = views(more@);
    errors.append(&mut more);
    assert(views(errors@) =~= first + second);
    if errors.len() == 0 {
        Ok(p)
    } else {
        Err(errors)
    }
}

/// A form is accepted only when it has no error of any kind: the port
/// parses and neither the configuration nor the hotkeys have an error. An
/// accepted form keeps its port; a rejected one lists the port error alone,
/// or every configuration error and then every hotkey error.
pub proof fn lemma_form_accepted_only_without_errors(
    port: Result<u16, Seq<char>>,
    config_errors: Seq<Seq<char>>,
    hotkey_errors: Seq<Seq<char>>,
)
    ensures
        (form_check_spec(port, config_errors, hotkey_errors) is Ok) <==> (port is Ok
            && config_errors.len() == 0 && hotkey_errors.len() == 0),
        form_check_spec(port, config_errors, hotkey_errors) matches Ok(p) ==> port == Ok::<
            u16,
            Seq<char>,
        >(p),
        port matches Err(m) ==> form_check_spec(port, config_errors, hotkey_errors) == Err::<
            u16,
            Seq<Seq<char>>,
        >(seq![m]),
        port is Ok && (config_errors.len() > 0 || hotkey_errors.len() > 0) ==> form_check_spec(
            port,
            config_errors,
            hotkey_errors,
        ) == Err::<u16, Seq<Seq<char>>>(config_errors + hotkey_errors),
{
}

/// A non-blank toggle hotkey that does not parse rejects a form whose port
/// parses, whatever the configuration errors are, and the rejection names
/// it, after the configuration errors.
pub proof fn lemma_invalid_hotkey_rejects_form(
    port: u16,
    config_errors: Seq<Seq<char>>,
    ptt_given: bool,
    ptt_id: Option<u32>,
)
    ensures
        form_check_spec(
            Ok(port),
            config_errors,
            hotkey_errors_spec(true, None, ptt_given, ptt_id),
        ) matches Err(errors) && errors[config_errors.len() as int] == invalid_hotkey_message()
            && errors.contains(invalid_hotkey_message()),
{
    let h = hotkey_errors_spec(true, None, ptt_given, ptt_id);
    assert(h[0] == invalid_hotkey_message());
    let errors = config_errors + h;
    assert(errors[config_errors.len() as int] == invalid_hotkey_message());
}

/// The Windows virtual keys that only modify another key: Shift, Ctrl,
/// Alt and the two Windows keys.
pub open spec fn is_modifier_vk(key: int) -> bool {
    key == 0x10 || key == 0x11 || key == 0x12 || key == 0x5B || key == 0x5C
}

/// The Windows virtual key of Escape.
pub const VK_ESCAPE: i32 = 0x1B;

/// The first key from `from` to 0xFE that was pressed, is not a modifier,
/// and is Escape or has a hotkey name; keys past the end of `pressed` count
/// as not pressed.
pub open spec fn first_named_press(pressed: Seq<bool>, from: int) -> Option<int>
    decreases 0xFF - from,
{
    if from > 0xFE {
        None
    } else if !is_modifier_vk(from) && from < pressed.len() && pressed[from] && (from == VK_ESCAPE
        || virtual_key_name_spec(from as i32) is Some) {
        Some(from)
    } else {
        first_named_press(pressed, from + 1)
    }
}

/// What the Windows key state captures, scanning the keys from 0x08 to
/// 0xFE: at the first pressed key that is not a modifier and is Escape or
/// has a hotkey name, Escape cancels the capture (`Some(None)`) and a named
/// key captures itself with the modifiers held (`Some(Some(text))`); with no
/// such key nothing is captured yet (`None`).
pub open spec fn pressed_keys_hotkey_spec(
    pressed: Seq<bool>,
    ctrl: bool,
    alt: bool,
    shift: bool,
    super_key: bool,
) -> Option<Option<Seq<char>>> {
    match first_named_press(pressed, 8) {
        Some(key) => if key == VK_ESCAPE {
            Some(None)
        } else {
            Some(
                Some(
                    pressed_hotkey_spec(
                        virtual_key_name_spec(key as i32)->0,
                        ctrl,
                        alt,
                        shift,
                        super_key,
                    ),
                ),
            )
        },
        None => None,
    }
}

/// Captures a hotkey from the Windows key state: `pressed[k]` tells whether
/// virtual key `k` was pressed, and the flags which modifiers are held.
pub fn pressed_keys_hotkey(
    pressed: &[bool],
    ctrl: bool,
    alt: bool,
    shift: bool,
    super_key: bool,
) -> (r: Option<Option<String>>)
    ensures
        match r {
            None => pressed_keys_hotkey_spec(pressed@, ctrl, alt, shift, super_key) is None,
            Some(None) => pressed_keys_hotkey_spec(pressed@, ctrl, alt, shift, super_key) == Some(
                None::<Seq<char>>,
            ),
            Some(Some(t)) => pressed_keys_hotkey_spec(pressed@, ctrl, alt, shift, super_key)
                == Some(Some(t@)),
        },
{
    let mut key: i32 = 0x08;
    while key <= 0xFE
        invariant
            0x08 <= key <= 0xFF,
            first_named_press(pressed@, 8) == first_named_press(pressed@, key as int),
        decreases 0xFF - key,
    {
        let is_modifier = key == 0x10 || key == 0x11 || key == 0x12 || key == 0x5B || key == 0x5C;
        if !is_modifier && (key as usize) < pressed.len() && pressed[key as usize] {
            if key == VK_ESCAPE {
                return Some(None);
            }
            if let Some(name) = virtual_key_name(key) {
                return Some(Some(pressed_hotkey(name.as_str(), ctrl, alt, shift, super_key)));
            }
        }
        key = key + 1;
    }
    None
}

/// A captured hotkey holds every modifier that was held, and no other: its
/// text starts with `Ctrl+` exactly when Ctrl was held, then `Alt+` exactly
/// when Alt was, then `Shift+` and `Super+` in the same way, and ends with
/// the name of the key pressed (pressing F1 with Alt alone gives `Alt+F1`).
pub proof fn lemma_capture_keeps_held_modifiers(
    pressed: Seq<bool>,
    ctrl: bool,
    alt: bool,
    shift: bool,
    super_key: bool,
)
    ensures
        pressed_keys_hotkey_spec(pressed, ctrl, alt, shift, super_key) matches Some(Some(t)) ==> t
            == (if ctrl {
            "Ctrl+"@
        } else {
            Seq::empty()
        }) + (if alt {
            "Alt+"@
        } else {
            Seq::empty()
        }) + (if shift {
            "Shift+"@
        } else {
            Seq::empty()
        }) + (if super_key {
            "Super+"@
        } else {
            Seq::empty()
        }) + virtual_key_name_spec(first_named_press(pressed, 8)->0 as i32)->0,
{
    lemma_modifier_parts();
}

/// The same for a hotkey captured from one key press: the held modifiers
/// come first, in the order Ctrl, Alt, Shift, each exactly when it was held,
/// then the key's name.
pub proof fn lemma_key_press_keeps_held_modifiers(
    raw: Seq<char>,
    ctrl: bool,
    alt: bool,
    shift: bool,
)
    ensures
        captured_hotkey_spec(raw, ctrl, alt, shift) matches Some(Some(t)) ==> t == (if ctrl {
            "Ctrl+"@
        } else {
            Seq::empty()
        }) + (if alt {
            "Alt+"@
        } else {
            Seq::empty()
        }) + (if shift {
            "Shift+"@
        } else {
            Seq::empty()
        }) + raw,
{
    lemma_modifier_parts();
    assert(modifier_prefix(false, "Super"@) + raw =~= raw);
}

proof fn lemma_modifier_parts()
    ensures
        "Ctrl"@ + "+"@ == "Ctrl+"@,
        "Alt"@ + "+"@ == "Alt+"@,
        "Shift"@ + "+"@ == "Shift+"@,
        "Super"@ + "+"@ == "Super+"@,
{
    reveal_strlit("Ctrl+");
    reveal_strlit("Ctrl");
    reveal_strlit("Alt+");
    reveal_strlit("Alt");
    reveal_strlit("Shift+");
    reveal_strlit("Shift");
    reveal_strlit("Super+");
    reveal_strlit("Super");
    reveal_strlit("+");
    assert("Ctrl"@ + "+"@ =~= "Ctrl+"@);
    assert("Alt"@ + "+"@ =~= "Alt+"@);
    assert("Shift"@ + "+"@ =~= "Shift+"@);
    assert("Super"@ + "+"@ =~= "Super+"@);
}

/// The two blink options of the mute indicator: each box is disabled while
/// the other one is on, so at most one is turned on.
pub struct BlinkFields {
    pub blink_while_muted: bool,
    pub blink_on_talk: bool,
}

impl BlinkFields {
    /// Clicking "blink while muted" to `value`: ignored while "blink on
    /// talk" is on; turning it on turns "blink on talk" off.
    pub fn set_blink_while_muted(&mut self, value: bool)
        ensures
            old(self).blink_on_talk ==> final(self).blink_while_muted == old(
                self,
            ).blink_while_muted && final(self).blink_on_talk,
            !old(self).blink_on_talk ==> final(self).blink_while_muted == value
                && !final(self).blink_on_talk,
            !(old(self).blink_while_muted && old(self).blink_on_talk) ==> !(final(self).blink_while_muted
                && final(self).blink_on_talk),
    {
        if self.blink_on_talk {
            return;
        }
        let changed = self.blink_while_muted != value;
        self.blink_while_muted = value;
        if changed && self.blink_while_muted {
            self.blink_on_talk = false;
        }
    }

    /// Clicking "blink on talk" to `value`: ignored while "blink while
    /// muted" is on; turning it on turns "blink while muted" off.
    pub fn set_blink_on_talk(&mut self, value: bool)
        ensures
            old(self).blink_while_muted ==> final(self).blink_on_talk == old(self).blink_on_talk
                && final(self).blink_while_muted,
            !old(self).blink_while_muted ==> final(self).blink_on_talk == value
                && !final(self).blink_while_muted,
            !(old(self).blink_while_muted && old(self).blink_on_talk) ==> !(final(self).blink_while_muted
                && final(self).blink_on_talk),
    {
        if self.blink_while_muted {
            return;
        }
        let changed = self.blink_on_talk != value;
        self.blink_on_talk = value;
        if changed && self.blink_on_talk {
            self.blink_while_muted = false;
        }
    }

    /// The sensitivity row is shown only for "blink on talk" alone.
    pub fn shows_sensitivity(&self) -> (shown: bool)
        ensures
            shown == (self.blink_on_talk && !self.blink_while_muted),
    {
        self.blink_on_talk && !self.blink_while_muted
    }
}

/// Clears stale validation errors once any form field changed, so the
/// dialog's buttons stay reachable.
pub fn clear_stale_errors(errors: &mut Vec<String>, form_changed: bool)
    ensures
        form_changed ==> final(errors)@.len() == 0,
        !form_changed ==> final(errors)@ == old(errors)@,
{
    if errors.len() > 0 && form_changed {
        *errors = Vec::new();
    }
}

/// What the input meter asks for on a frame.
#[derive(PartialEq, Eq, Debug)]
pub enum MeterAction {
    /// Too early: nothing to do on this frame.
    Wait,
    /// Read the meters of the open device.
    Read,
    /// Open the device again, then read its meters if that worked.
    OpenThenRead,
}

/// The input meter's state: when it may read next (milliseconds), whether a
/// device is open, the levels last read and the last read error.
pub struct MeterState {
    pub next_read_ms: u64,
    pub device_open: bool,
    pub levels: Vec<u32>,
    pub error: Option<String>,
}

/// How long the meter waits between reads, in milliseconds.
pub const METER_INTERVAL_MS: u64 = 90;

impl MeterState {
    /// A frame at `now_ms`: before the next read time nothing happens;
    /// otherwise the next read is set 90 ms later and the meter reads,
    /// reopening the device first when none is open.
    pub fn tick(&mut self, now_ms: u64) -> (action: MeterAction)
        requires
            now_ms + METER_INTERVAL_MS <= u64::MAX,
        ensures
            now_ms < old(self).next_read_ms ==> action == MeterAction::Wait
                && final(self).next_read_ms == old(self).next_read_ms,
            now_ms >= old(self).next_read_ms ==> final(self).next_read_ms == now_ms
                + METER_INTERVAL_MS && action == (if old(self).device_open {
                MeterAction::Read
            } else {
                MeterAction::OpenThenRead
            }),
            final(self).device_open == old(self).device_open,
            final(self).levels@ == old(self).levels@,
            final(self).error == old(self).error,
    {
        if now_ms < self.next_read_ms {
            return MeterAction::Wait;
        }
        self.next_read_ms = now_ms + METER_INTERVAL_MS;
        if self.device_open {
            MeterAction::Read
        } else {
            MeterAction::OpenThenRead
        }
    }

    /// The outcome of reopening the device.
    pub fn opened(&mut self, ok: bool)
        ensures
            final(self).device_open == ok,
            final(self).next_read_ms == old(self).next_read_ms,
            final(self).levels@ == old(self).levels@,
            final(self).error == old(self).error,
    {
        self.device_open = ok;
    }

    /// The outcome of a read: new levels clear the error; a failure keeps
    /// the levels, records its text and drops the device.
    pub fn read_done(&mut self, result: core::result::Result<Vec<u32>, String>)
        ensures
            final(self).next_read_ms == old(self).next_read_ms,
            match result {
                Ok(levels) => final(self).levels@ == levels@ && final(self).error is None
                    && final(self).device_open == old(self).device_open,
                Err(message) => final(self).levels@ == old(self).levels@ && final(self).error
                    == Some(message) && !final(self).device_open,
            },
    {
        match result {
            Ok(levels) => {
                self.levels = levels;
                self.error = None;
            },
            Err(message) => {
                self.error = Some(message);
                self.device_open = false;
            },
        }
    }
}

/// The mute-inputs choices the dialog offers: a Solo's two inputs get
/// their own names (`solo_mute_input_items`); any other device keeps the
/// general choices `items`.
pub fn mute_input_items(is_solo: bool, input_count: usize, language: &str, items: Vec<String>) -> (r:
    Vec<String>)
    ensures
        is_solo && input_count == 2 ==> views(r@) == solo_mute_input_items_spec(language@),
        !(is_solo && input_count == 2) ==> r@ == items@,
{
    if is_solo && input_count == 2 {
        solo_mute_input_items(language)
    } else {
        items
    }
}

/// Which side of the colour fields changed last.
#[derive(Clone, Copy, PartialEq, Eq, Debug)]
pub enum ColorDirty {
    Neither,
    Text,
    Picker,
}

/// The colour text the configuration gets: the picker's colour as hex text
/// when the picker changed last, the typed text otherwise.
pub fn chosen_color_text(dirty: ColorDirty, color_text: &str, picker_hex: String) -> (text: String)
    ensures
        dirty == ColorDirty::Picker ==> text@ == picker_hex@,
        dirty != ColorDirty::Picker ==> text@ == color_text@,
{
    match dirty {
        ColorDirty::Picker => picker_hex,
        _ => String::from_str(color_text),
    }
}

/// The push-to-talk hotkey as the configuration stores it: trimmed, so a
/// blank field is stored empty (disabled).
pub fn stored_ptt_hotkey(ptt_hotkey: &str) -> (stored: String)
    ensures
        stored@ == trim_spec(ptt_hotkey@),
{
    trim(ptt_hotkey)
}

/// The error shown when Apply could not save the settings; `reason` is the
/// save error's text.
pub open spec fn save_failed_message(reason: Seq<char>) -> Seq<char> {
    "Could not save settings: "@ + reason
}

/// What Apply ran into: invalid fields, a save that failed (with its
/// reason), or saved settings.
pub enum ApplyOutcome {
    Invalid(Vec<String>),
    SaveFailed(String),
    Saved,
}

/// The dialog's errors and the note shown after Apply.
pub struct DialogMessages {
    pub errors: Vec<String>,
    pub apply_message: Option<String>,
}

impl DialogMessages {
    /// Save: valid fields close the dialog (`true`); otherwise the errors
    /// are shown and the dialog stays open.
    pub fn after_save(&mut self, validation: core::result::Result<(), Vec<String>>) -> (close: bool)
        ensures
            close == validation is Ok,
            validation is Ok ==> final(self).errors@ == old(self).errors@,
            validation matches Err(errors) ==> final(self).errors@ == errors@,
            final(self).apply_message == old(self).apply_message,
    {
        match validation {
            Ok(()) => true,
            Err(errors) => {
                self.errors = errors;
                false
            },
        }
    }

    /// Apply: invalid fields show their errors; a failed save shows one
    /// error naming the reason; saved settings clear the errors and show the
    /// note in the dialog's language. Only saved settings change the note.
    pub fn after_apply(&mut self, language: &str, outcome: ApplyOutcome)
        ensures
            match outcome {
                ApplyOutcome::Invalid(errors) => final(self).errors@ == errors@
                    && final(self).apply_message == old(self).apply_message,
                ApplyOutcome::SaveFailed(reason) => views(final(self).errors@) == seq![
                    save_failed_message(reason@),
                ] && final(self).apply_message == old(self).apply_message,
                ApplyOutcome::Saved => final(self).errors@.len() == 0
                    && (final(self).apply_message matches Some(m)
                    && m@ == apply_message_spec(language@)),
            },
    {
        match outcome {
            ApplyOutcome::Invalid(errors) => {
                self.errors = errors;
            },
            ApplyOutcome::SaveFailed(reason) => {
                let mut text = String::from_str("Could not save settings: ");
                text.append(reason.as_str());
                let mut errors: Vec<String> = Vec::new();
                errors.push(text);
                assert(views(errors@) =~= seq![save_failed_message(reason@)]);
                self.errors = errors;
            },
            ApplyOutcome::Saved => {
                self.apply_message = Some(String::from_str(apply_message(language)));
                self.errors = Vec::new();
            },
        }
    }
}

} // verus!
