//! Verified core of a trackpad momentum utility: keybind and modifier
//! handling, keybind capture, and the settings decisions of its menu-bar UI.
pub mod key_monitor;
pub mod keybind;
pub mod settings;
