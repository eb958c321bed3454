//! The persisted settings and the few engine-side values the interface reads: the theme and view
//! modes, the direction of an audio device and the device itself.

use vstd::prelude::*;

verus! {

/// Which palette is showing.
#[derive(Debug, Clone, Copy, PartialEq, Eq, Structural)]
pub enum ThemeMode {
    Dark,
    Light,
}

/// Which main window is showing: the full one or the compact one.
#[derive(Debug, Clone, Copy, PartialEq, Eq, Structural)]
pub enum ViewMode {
    Pro,
    Lite,
}

/// Whether a device plays sound or records it.
#[derive(Debug, Clone, Copy, PartialEq, Eq, Structural)]
pub enum DeviceDirection {
    Output,
    Input,
}

impl DeviceDirection {
    /// The title of this direction's run in the device list.
    pub fn label(self) -> (s: &'static str)
        ensures
            s@ == (match self {
                DeviceDirection::Output => "Output"@,
                DeviceDirection::Input => "Input"@,
            }),
    {
        match self {
            DeviceDirection::Output => "Output",
            DeviceDirection::Input => "Input",
        }
    }
}

/// One audio endpoint as the engine publishes it.
#[derive(Debug, Clone, PartialEq, Eq)]
pub struct AudioDevice {
    /// The engine's node id.
    pub id: u32,
    /// The stable node name the settings file keys on.
    pub name: String,
    /// The friendly name the list shows.
    pub description: String,
    /// Whether the session uses this device by default.
    pub is_default: bool,
    pub direction: DeviceDirection,
    /// What kind of device it is, e.g. `"speaker"`.
    pub form_factor: String,
}

/// The five global-shortcut chords, as the settings file stores them.
#[derive(Debug, Clone, PartialEq, Eq)]
pub struct Hotkeys {
    pub cmd_on_off: String,
    pub cmd_open_close: String,
    pub cmd_next_preset: String,
    pub cmd_previous_preset: String,
    pub cmd_change_output: String,
}

/// The chords a fresh settings file holds.
pub open spec fn default_hotkeys(h: Hotkeys) -> bool {
    &&& h.cmd_on_off@ == "Ctrl+Shift+Q"@
    &&& h.cmd_open_close@ == "Ctrl+Shift+E"@
    &&& h.cmd_next_preset@ == "Ctrl+Shift+A"@
    &&& h.cmd_previous_preset@ == "Ctrl+Shift+Z"@
    &&& h.cmd_change_output@ == "Ctrl+Shift+W"@
}

impl Default for Hotkeys {
    fn default() -> (h: Self)
        ensures
            default_hotkeys(h),
    {
        Hotkeys {
            cmd_on_off: String::from_str("Ctrl+Shift+Q"),
            cmd_open_close: String::from_str("Ctrl+Shift+E"),
            cmd_next_preset: String::from_str("Ctrl+Shift+A"),
            cmd_previous_preset: String::from_str("Ctrl+Shift+Z"),
            cmd_change_output: String::from_str("Ctrl+Shift+W"),
        }
    }
}

/// The persisted settings the interface reads.
#[derive(Debug, Clone, PartialEq, Eq)]
pub struct Settings {
    pub hotkey_bindings: Hotkeys,
    /// The chosen interface language's code; ignored while `language_follows_system` is set.
    pub language: String,
    /// Follow the desktop session's language rather than `language`.
    pub language_follows_system: bool,
    /// A newly seen output device goes to the top of the priority list rather than the bottom.
    pub prioritize_new_output: bool,
    /// Suppress every control tooltip.
    pub hide_help_tooltips: bool,
    /// Suppress the desktop notifications.
    pub hide_notifications: bool,
    /// How many user presets may exist.
    pub max_user_presets: u32,
    /// The schema version of the per-device table.
    pub device_configs_version: u32,
}

/// What a fresh settings file holds.
pub open spec fn default_settings(s: Settings) -> bool {
    &&& default_hotkeys(s.hotkey_bindings)
    &&& s.language@ == "en"@
    &&& s.language_follows_system
    &&& !s.prioritize_new_output
    &&& !s.hide_help_tooltips
    &&& !s.hide_notifications
    &&& s.max_user_presets == 120
    &&& s.device_configs_version == 2
}

impl Default for Settings {
    fn default() -> (s: Self)
        ensures
            default_settings(s),
    {
        Settings {
            hotkey_bindings: Hotkeys::default(),
            language: String::from_str("en"),
            language_follows_system: true,
            prioritize_new_output: false,
            hide_help_tooltips: false,
            hide_notifications: false,
            max_user_presets: 120,
            device_configs_version: 2,
        }
    }
}

impl Settings {
    /// Pick an interface language: a code, or `None` to follow the desktop session. A code is
    /// stored as given, whether or not there is a table for it.
    pub fn choose_language(&mut self, code: Option<&str>)
        ensures
            match code {
                Some(c) => !final(self).language_follows_system && final(self).language@ == c@,
                None => final(self).language_follows_system && final(self).language
                    == old(self).language,
            },
            final(self).hotkey_bindings == old(self).hotkey_bindings,
            final(self).prioritize_new_output == old(self).prioritize_new_output,
            final(self).hide_help_tooltips == old(self).hide_help_tooltips,
            final(self).hide_notifications == old(self).hide_notifications,
            final(self).max_user_presets == old(self).max_user_presets,
            final(self).device_configs_version == old(self).device_configs_version,
    {
        match code {
            Some(c) => {
                self.language = String::from_str(c);
                self.language_follows_system = false;
            },
            None => {
                self.language_follows_system = true;
            },
        }
    }
}

} // verus!
