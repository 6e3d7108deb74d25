# focusmute

Verified core of FocusMute, hotkey mute control for Focusrite Scarlett 4th Gen
interfaces, written with Verus.

Layout of `src/`:

- `device.rs`: the device interface (`ScarlettDevice`): descriptor reads and
  writes and DATA_NOTIFY events, each recorded with its outcome in the device's
  history; what running a sequence of commands records; and `MockDevice`, a
  recording device whose type invariant says it accepts every command and
  keeps exactly the writes and notifies its history records.
- `direct.rs`: Solo detection, notification decoding and Direct Monitor
  control through the Solo's parameter buffer.
- `led/`: the single-LED command and the Solo's LED map, LED tests and their
  restoration.
- `i18n.rs`: the English and Russian texts of the interface.
- `led_lab.rs`: the LED Lab's stepping, single-LED test, reset, read-only
  snapshot, restore on close, and the texts it shows.
- `settings_dialog.rs`: the rules of the settings dialog (sensitivity presets,
  selected inputs, fields taken from the configuration, browser-sync port and
  hotkey checks and the order of the form's errors, key capture, the blink
  options, the input meter's steps).
- `text.rs`: character-level helpers (ASCII-case comparison, trimming,
  decimal rendering and parsing).

The tests under `tests/` run the library.
