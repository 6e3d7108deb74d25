//! FocusMute's device and dialog logic for Focusrite Scarlett 4th Gen
//! interfaces, the Scarlett Solo in particular: Direct Monitor control,
//! notification decoding, the Solo LED map and LED tests, the interface
//! texts and the settings dialog's rules.
use vstd::prelude::*;

pub mod device;
pub mod direct;
pub mod i18n;
pub mod led;
pub mod led_lab;
pub mod settings_dialog;
pub mod text;
