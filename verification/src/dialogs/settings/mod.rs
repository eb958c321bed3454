//! The Settings window: a side nav of three tabs and one pane to the right of it.
//!
//! The window only reads [`SettingsState`]; every change the user asks for leaves as a
//! [`SettingsAction`], and the owner applies it and hands the new state back next frame. The five
//! hotkey rows are a read-only reference table: a Wayland client cannot bind global shortcuts, so
//! the rows say which command line to bind in the compositor instead.

pub mod audio;
pub mod device_row;
pub mod general;
pub mod help;

use vstd::prelude::*;
use super::DialogResponse;
use crate::layout::{Rect, in_range};
use crate::i18n::{LANGUAGE_COUNT, code_at, find_code, language_at, language_index,
    lemma_codes_are_distinct, lemma_find_code_range, native_name, native_name_at};
use crate::model::Settings;
use crate::text::{chars_of, decimal, decimal_chars, push_str, str_equal, string_of};
use vstd::std_specs::cmp::PartialEqSpecImpl;

verus! {

/// The content size.
pub const CONTENT_SIZE: (i32, i32) = (600, 510);
/// The outer window size, from the shared formula.
pub const WINDOW_SIZE: (i32, i32) = (610, 597);
/// How many lines the reset button's label may wrap to.
pub const RESET_MAX_LINES: usize = 3;
/// Left edge of the tab buttons.
pub const BUTTON_X: i32 = 20;
/// Top of the first tab button.
pub const BUTTON_Y: i32 = 50;
/// A tab button's size.
pub const BUTTON_SIZE: (i32, i32) = (150, 40);
/// The gap between two tab buttons.
pub const BUTTON_GAP: i32 = 20;
/// Where the rule between the nav and the pane runs.
pub const SEPARATOR_X: i32 = 152;
/// A pane's left margin.
pub const X_MARGIN: i32 = 20;
/// A pane's top margin.
pub const Y_MARGIN: i32 = 5;
/// Height of a pane's heading.
pub const TITLE_HEIGHT: i32 = 24;

/// The pane: from one point right of the rule and one point below the top to the content's
/// bottom-right corner.
pub open spec fn pane_of(content: Rect) -> Rect {
    Rect {
        x: (content.x + SEPARATOR_X + 1) as i32,
        y: (content.y + 1) as i32,
        w: (content.w - SEPARATOR_X - 1) as i32,
        h: (content.h - 1) as i32,
    }
}

/// The pane, to the right of the rule.
pub fn pane_rect(content: Rect) -> (r: Rect)
    requires
        in_range(content),
    ensures
        r == pane_of(content),
{
    Rect {
        x: content.x + SEPARATOR_X + 1,
        y: content.y + 1,
        w: content.w - SEPARATOR_X - 1,
        h: content.h - 1,
    }
}

/// Where the rule between the nav and the pane is drawn: along the pane's left edge.
pub fn divider_x(content: Rect) -> (x: i32)
    requires
        in_range(content),
    ensures
        x == pane_of(content).x - 1,
{
    pane_rect(content).x - 1
}

/// Tab button `index`: stacked down the nav, a button's height and a gap apart.
pub fn nav_button_rect(content: Rect, index: usize) -> (r: Rect)
    requires
        in_range(content),
        content.y + BUTTON_Y + index * (BUTTON_SIZE.1 + BUTTON_GAP) <= i32::MAX,
    ensures
        r == (Rect {
            x: (content.x + BUTTON_X) as i32,
            y: (content.y + BUTTON_Y + index * (BUTTON_SIZE.1 + BUTTON_GAP)) as i32,
            w: BUTTON_SIZE.0,
            h: BUTTON_SIZE.1,
        }),
{
    assert(BUTTON_SIZE.1 + BUTTON_GAP == 60);
    assert(index * (BUTTON_SIZE.1 + BUTTON_GAP) == index * 60);
    assert(index <= 1000000000);
    let step: i64 = (index as i64) * 60;
    let y: i64 = content.y as i64 + BUTTON_Y as i64 + step;
    Rect { x: content.x + BUTTON_X, y: y as i32, w: BUTTON_SIZE.0, h: BUTTON_SIZE.1 }
}

/// A pane's heading: the pane's margins in from its top-left corner, and as wide as the pane
/// less the left margin.
pub fn pane_title_rect(pane: Rect) -> (r: Rect)
    requires
        in_range(pane),
    ensures
        r == (Rect {
            x: (pane.x + X_MARGIN) as i32,
            y: (pane.y + Y_MARGIN) as i32,
            w: (pane.w - X_MARGIN) as i32,
            h: TITLE_HEIGHT,
        }),
{
    Rect { x: pane.x + X_MARGIN, y: pane.y + Y_MARGIN, w: pane.w - X_MARGIN, h: TITLE_HEIGHT }
}

/// Which pane is showing.
#[derive(Debug, Clone, Copy, PartialEq, Eq, Hash, Structural)]
pub enum SettingsTab {
    Audio,
    General,
    Help,
}

impl Default for SettingsTab {
    /// Audio is selected when the window opens.
    fn default() -> (t: Self)
        ensures
            t == SettingsTab::Audio,
    {
        SettingsTab::Audio
    }
}

/// The position of a tab in the side nav.
pub open spec fn tab_index(tab: SettingsTab) -> int {
    match tab {
        SettingsTab::Audio => 0,
        SettingsTab::General => 1,
        SettingsTab::Help => 2,
    }
}

impl SettingsTab {
    /// In nav order.
    pub const ALL: [SettingsTab; 3] = [SettingsTab::Audio, SettingsTab::General, SettingsTab::Help];

    /// The tab button's caption.
    pub fn nav_label(self) -> (s: &'static str)
        ensures
            s@ == (match self {
                SettingsTab::Audio => "Audio"@,
                SettingsTab::General => "General"@,
                SettingsTab::Help => "Help"@,
            }),
    {
        match self {
            SettingsTab::Audio => "Audio",
            SettingsTab::General => "General",
            SettingsTab::Help => "Help",
        }
    }

    /// The pane's own heading, which differs from the tab's caption for General.
    pub fn pane_title(self) -> (s: &'static str)
        ensures
            s@ == (match self {
                SettingsTab::Audio => "Audio"@,
                SettingsTab::General => "General Preferences"@,
                SettingsTab::Help => "Help"@,
            }),
    {
        match self {
            SettingsTab::Audio => "Audio",
            SettingsTab::General => "General Preferences",
            SettingsTab::Help => "Help",
        }
    }

    /// The icon in the tab button's rounded square.
    pub fn icon(self) -> (i: NavIcon)
        ensures
            i == (match self {
                SettingsTab::Audio => NavIcon::Speaker,
                SettingsTab::General => NavIcon::Settings,
                SettingsTab::Help => NavIcon::Question,
            }),
    {
        match self {
            SettingsTab::Audio => NavIcon::Speaker,
            SettingsTab::General => NavIcon::Settings,
            SettingsTab::Help => NavIcon::Question,
        }
    }

    /// The tab's row in the side nav, from the top.
    pub fn index(self) -> (i: usize)
        ensures
            i == tab_index(self),
    {
        match self {
            SettingsTab::Audio => 0,
            SettingsTab::General => 1,
            SettingsTab::Help => 2,
        }
    }
}

/// The side-nav artwork: the same neutral grey in both palettes.
#[derive(Debug, Clone, Copy, PartialEq, Eq, Hash, Structural)]
pub enum NavIcon {
    Speaker,
    Settings,
    Question,
}

impl NavIcon {
    /// The artwork's file name.
    pub fn file_name(self) -> (s: &'static str)
        ensures
            s@ == (match self {
                NavIcon::Speaker => "speaker.svg"@,
                NavIcon::Settings => "settings.svg"@,
                NavIcon::Question => "question.svg"@,
            }),
    {
        match self {
            NavIcon::Speaker => "speaker.svg",
            NavIcon::Settings => "settings.svg",
            NavIcon::Question => "question.svg",
        }
    }
}

/// The five commands a global shortcut can run.
#[derive(Debug, Clone, Copy, PartialEq, Eq, Hash, Structural)]
pub enum HotkeyCommand {
    OnOff,
    OpenClose,
    NextPreset,
    PreviousPreset,
    ChangeOutput,
}

impl HotkeyCommand {
    /// In table order.
    pub const ALL: [HotkeyCommand; 5] = [
        HotkeyCommand::OnOff,
        HotkeyCommand::OpenClose,
        HotkeyCommand::NextPreset,
        HotkeyCommand::PreviousPreset,
        HotkeyCommand::ChangeOutput,
    ];

    /// The row's caption.
    pub fn label(self) -> (s: &'static str)
        ensures
            s@ == (match self {
                HotkeyCommand::OnOff => "Turn FxSound On/Off"@,
                HotkeyCommand::OpenClose => "Open/Close FxSound"@,
                HotkeyCommand::NextPreset => "Use Next Preset"@,
                HotkeyCommand::PreviousPreset => "Use Previous Preset"@,
                HotkeyCommand::ChangeOutput => "Change Playback Device"@,
            }),
    {
        match self {
            HotkeyCommand::OnOff => "Turn FxSound On/Off",
            HotkeyCommand::OpenClose => "Open/Close FxSound",
            HotkeyCommand::NextPreset => "Use Next Preset",
            HotkeyCommand::PreviousPreset => "Use Previous Preset",
            HotkeyCommand::ChangeOutput => "Change Playback Device",
        }
    }

    /// The key the settings file stores this command's chord under.
    pub fn settings_key(self) -> (s: &'static str)
        ensures
            s@ == (match self {
                HotkeyCommand::OnOff => "cmd_on_off"@,
                HotkeyCommand::OpenClose => "cmd_open_close"@,
                HotkeyCommand::NextPreset => "cmd_next_preset"@,
                HotkeyCommand::PreviousPreset => "cmd_previous_preset"@,
                HotkeyCommand::ChangeOutput => "cmd_change_output"@,
            }),
    {
        match self {
            HotkeyCommand::OnOff => "cmd_on_off",
            HotkeyCommand::OpenClose => "cmd_open_close",
            HotkeyCommand::NextPreset => "cmd_next_preset",
            HotkeyCommand::PreviousPreset => "cmd_previous_preset",
            HotkeyCommand::ChangeOutput => "cmd_change_output",
        }
    }

    /// The chord the settings hold for this command.
    pub fn binding(self, settings: &Settings) -> (s: &str)
        ensures
            s@ == (match self {
                HotkeyCommand::OnOff => settings.hotkey_bindings.cmd_on_off@,
                HotkeyCommand::OpenClose => settings.hotkey_bindings.cmd_open_close@,
                HotkeyCommand::NextPreset => settings.hotkey_bindings.cmd_next_preset@,
                HotkeyCommand::PreviousPreset => settings.hotkey_bindings.cmd_previous_preset@,
                HotkeyCommand::ChangeOutput => settings.hotkey_bindings.cmd_change_output@,
            }),
    {
        let hotkeys = &settings.hotkey_bindings;
        match self {
            HotkeyCommand::OnOff => hotkeys.cmd_on_off.as_str(),
            HotkeyCommand::OpenClose => hotkeys.cmd_open_close.as_str(),
            HotkeyCommand::NextPreset => hotkeys.cmd_next_preset.as_str(),
            HotkeyCommand::PreviousPreset => hotkeys.cmd_previous_preset.as_str(),
            HotkeyCommand::ChangeOutput => hotkeys.cmd_change_output.as_str(),
        }
    }

    /// What a compositor keybinding should run; each reaches the running instance over its
    /// control socket.
    pub fn command_line(self) -> (s: &'static str)
        ensures
            s@ == (match self {
                HotkeyCommand::OnOff => "fxsound --toggle-power"@,
                HotkeyCommand::OpenClose => "fxsound --toggle-window"@,
                HotkeyCommand::NextPreset => "fxsound --next-preset"@,
                HotkeyCommand::PreviousPreset => "fxsound --prev-preset"@,
                HotkeyCommand::ChangeOutput => "fxsound --next-output"@,
            }),
    {
        match self {
            HotkeyCommand::OnOff => "fxsound --toggle-power",
            HotkeyCommand::OpenClose => "fxsound --toggle-window",
            HotkeyCommand::NextPreset => "fxsound --next-preset",
            HotkeyCommand::PreviousPreset => "fxsound --prev-preset",
            HotkeyCommand::ChangeOutput => "fxsound --next-output",
        }
    }
}

/// What the note above the hotkey table says.
pub const HOTKEY_NOTE: &'static str = "A Wayland client cannot bind global shortcuts: the compositor owns them. Bind these commands in your compositor's configuration — each one reaches the running instance over FxSound's control socket.";
/// The shipped example the note points at.
pub const HOTKEY_EXAMPLE_FILE: &'static str = "packaging/hyprland.conf.example";
/// Heading of the hotkey block.
pub const HOTKEY_TITLE: &'static str = "Keyboard shortcuts";
/// Heading of the device priority list.
pub const OUTPUT_PREFERENCE_TITLE: &'static str = "Output Device Preference";
/// The checkbox under the device list.
pub const PRIORITIZE_NEW_OUTPUT: &'static str = "Prioritize new output devices";
/// The destructive button at the bottom of the Audio pane.
pub const RESET_PRESETS: &'static str = "Reset presets to factory defaults";
/// The device list's tooltip.
pub const PRIORITY_TOOLTIP: &'static str = "Use Shift+Up or Shift+Down to change the device priority";
/// The General pane's three checkboxes.
pub const LAUNCH_ON_STARTUP: &'static str = "Launch on system startup";
pub const HIDE_HELP_TIPS: &'static str = "Hide help tips for audio controls";
pub const HIDE_NOTIFICATIONS: &'static str = "Hide notifications";
/// The Help pane's heading and link.
pub const VERSION_TITLE: &'static str = "Version";
pub const CHANGELOG_LINK: &'static str = "Changelog";
/// The language switch's first position, before the name of the session's language.
pub const SYSTEM_LANGUAGE: &'static str = "System language";
/// The device combo's placeholder.
pub const SELECT_PRESET: &'static str = "Select preset";

/// One position of the language switch: the desktop session's language first, then every
/// language in the table.
#[derive(Debug, Clone, Copy, PartialEq, Eq)]
pub enum LanguageChoice {
    /// Follow the desktop session.
    System,
    /// One of the table's languages, by code.
    Code(&'static str),
}

/// How many positions the switch has.
pub const CHOICE_COUNT: usize = 30;

/// The switch's position `i`.
pub open spec fn choice_at(i: int) -> LanguageChoice {
    if i == 0 {
        LanguageChoice::System
    } else {
        LanguageChoice::Code(code_at(i - 1))
    }
}

/// Where a choice sits on the switch. A code without a table sits where the system entry does.
pub open spec fn choice_index(c: LanguageChoice) -> int {
    match c {
        LanguageChoice::System => 0,
        LanguageChoice::Code(code) => if find_code(code@) >= 0 {
            find_code(code@) + 1
        } else {
            0
        },
    }
}

/// What a choice stores in the settings: `None` follows the system.
pub open spec fn choice_setting(c: LanguageChoice) -> Option<Seq<char>> {
    match c {
        LanguageChoice::System => None,
        LanguageChoice::Code(code) => Some(code@),
    }
}

/// The switch position the settings are in.
pub open spec fn current_choice(settings: Settings) -> LanguageChoice {
    if settings.language_follows_system {
        LanguageChoice::System
    } else if find_code(settings.language@) >= 0 {
        LanguageChoice::Code(code_at(find_code(settings.language@)))
    } else {
        LanguageChoice::System
    }
}

/// The text the switch shows for a choice, given the session's language code.
pub open spec fn choice_label(c: LanguageChoice, system: Seq<char>) -> Seq<char> {
    match c {
        LanguageChoice::System => SYSTEM_LANGUAGE@ + " · "@ + native_name_of(system),
        LanguageChoice::Code(code) => native_name_of(code@),
    }
}

/// The name a language gives itself; a code without a table reads as English.
pub open spec fn native_name_of(code: Seq<char>) -> Seq<char> {
    if find_code(code) >= 0 {
        native_name_at(find_code(code))@
    } else {
        native_name_at(0)@
    }
}

impl LanguageChoice {
    /// Every position, in order.
    pub fn all() -> (v: Vec<LanguageChoice>)
        ensures
            v@.len() == CHOICE_COUNT,
            forall|i: int| 0 <= i < CHOICE_COUNT ==> #[trigger] v@[i] == choice_at(i),
    {
        let mut v: Vec<LanguageChoice> = Vec::new();
        v.push(LanguageChoice::System);
        let mut i: usize = 0;
        while i < LANGUAGE_COUNT
            invariant
                i <= LANGUAGE_COUNT,
                v@.len() == i + 1,
                forall|k: int| 0 <= k <= i ==> #[trigger] v@[k] == choice_at(k),
            decreases LANGUAGE_COUNT - i,
        {
            let l = language_at(i);
            v.push(LanguageChoice::Code(l.code));
            i = i + 1;
        }
        v
    }

    /// Where this choice sits on the switch.
    pub fn position(self) -> (i: usize)
        ensures
            i == choice_index(self),
            i < CHOICE_COUNT,
    {
        match self {
            LanguageChoice::System => 0,
            LanguageChoice::Code(code) => match language_index(code) {
                Some(k) => k + 1,
                None => 0,
            },
        }
    }

    /// The position the settings are in right now. An explicit code with no table falls back to
    /// the system entry.
    pub fn current(settings: &Settings) -> (c: LanguageChoice)
        ensures
            c == current_choice(*settings),
    {
        if settings.language_follows_system {
            return LanguageChoice::System;
        }
        match language_index(settings.language.as_str()) {
            Some(k) => LanguageChoice::Code(language_at(k).code),
            None => LanguageChoice::System,
        }
    }

    /// What the switch shows: the language's own name, never translated; for the system entry,
    /// which language the session's code `system` is.
    pub fn label(self, system: &str) -> (s: String)
        ensures
            s@ == choice_label(self, system@),
    {
        let mut v: Vec<char> = Vec::new();
        match self {
            LanguageChoice::System => {
                push_str(&mut v, SYSTEM_LANGUAGE);
                push_str(&mut v, " · ");
                push_str(&mut v, native_name(system));
            },
            LanguageChoice::Code(code) => {
                push_str(&mut v, native_name(code));
            },
        }
        proof {
            assert(v@ =~= choice_label(self, system@));
        }
        string_of(&v)
    }

    /// The position `steps` away, wrapping in both directions.
    pub fn step(self, steps: isize) -> (c: LanguageChoice)
        ensures
            c == choice_at((choice_index(self) + steps) % (CHOICE_COUNT as int)),
    {
        let all = LanguageChoice::all();
        let current = self.position();
        let offset = match steps.checked_rem_euclid(30) {
            Some(r) => r,
            None => 0,
        };
        proof {
            assert(offset == steps % 30);
            assert(0 <= offset < 30);
        }
        let target = (current + (offset as usize)) % CHOICE_COUNT;
        proof {
            vstd::arithmetic::div_mod::lemma_add_mod_noop_right(choice_index(self), steps as int, 30);
        }
        all[target]
    }

    /// What a language change carries for this position: `None` follows the system.
    pub fn setting(self) -> (s: Option<String>)
        ensures
            match s {
                Some(t) => choice_setting(self) == Some(t@),
                None => choice_setting(self) is None,
            },
    {
        match self {
            LanguageChoice::System => None,
            LanguageChoice::Code(code) => Some(code.to_string()),
        }
    }
}

/// One row of the output-device priority list.
#[derive(Debug, Clone, PartialEq, Eq)]
pub struct DevicePriority {
    /// The stable node name the per-device table is keyed on.
    pub id: String,
    /// The friendly name the row shows after its rank.
    pub name: String,
    /// Index into [`SettingsState::presets`], or `None` for the "Select preset" placeholder.
    pub preset: Option<usize>,
    /// `false` for a remembered device that is not usable now: its name greys out.
    pub connected: bool,
    /// `false` for a device that is not enumerated any more: only then can the row be removed.
    pub present: bool,
}

/// A row's caption: its one-based rank, a dot and a space, then the device name.
pub open spec fn device_label(index: nat, name: Seq<char>) -> Seq<char> {
    decimal(index + 1) + ". "@ + name
}

impl DevicePriority {
    /// The caption of the row at `index`.
    pub fn label(&self, index: usize) -> (s: String)
        requires
            index < usize::MAX,
        ensures
            s@ == device_label(index as nat, self.name@),
    {
        let mut v = decimal_chars(index + 1);
        push_str(&mut v, ". ");
        push_str(&mut v, self.name.as_str());
        string_of(&v)
    }
}

/// Everything the Settings window draws.
#[derive(Debug, Clone, PartialEq)]
pub struct SettingsState {
    /// The persisted settings, read-only here.
    pub settings: Settings,
    /// Which pane is showing.
    pub tab: SettingsTab,
    /// The device priority list, in priority order.
    pub devices: Vec<DevicePriority>,
    /// The selected row, which the arrow buttons and Shift+Up/Shift+Down act on.
    pub selected_device: Option<usize>,
    /// Every preset name, for the per-device preset picker.
    pub presets: Vec<String>,
    /// Whether there is anything to lose: at least one user preset, or a modified one.
    pub can_reset_presets: bool,
    /// The application version, shown as `"v" + version` and never translated.
    pub version: String,
    /// Whether FxSound starts with the session; read from the autostart entry by the owner.
    pub launch_on_startup: bool,
}

impl Default for SettingsState {
    fn default() -> (s: Self)
        ensures
            crate::model::default_settings(s.settings),
            s.tab == SettingsTab::Audio,
            s.devices@.len() == 0,
            s.selected_device is None,
            s.presets@.len() == 0,
            !s.can_reset_presets,
            s.version@.len() == 0,
            !s.launch_on_startup,
    {
        SettingsState::new(Settings::default())
    }
}

impl SettingsState {
    /// A window over `settings` with nothing else known yet.
    pub fn new(settings: Settings) -> (s: Self)
        ensures
            s.settings == settings,
            s.tab == SettingsTab::Audio,
            s.devices@.len() == 0,
            s.selected_device is None,
            s.presets@.len() == 0,
            !s.can_reset_presets,
            s.version@.len() == 0,
            !s.launch_on_startup,
    {
        SettingsState {
            settings,
            tab: SettingsTab::Audio,
            devices: Vec::new(),
            selected_device: None,
            presets: Vec::new(),
            can_reset_presets: false,
            version: String::new(),
            launch_on_startup: false,
        }
    }

    /// `"v"` followed by the version.
    pub fn version_text(&self) -> (s: String)
        ensures
            s@ == "v"@ + self.version@,
    {
        let mut v: Vec<char> = Vec::new();
        push_str(&mut v, "v");
        push_str(&mut v, self.version.as_str());
        string_of(&v)
    }

    /// Whether the row at `index` can move up.
    pub fn can_move_up(&self, index: usize) -> (b: bool)
        ensures
            b == (0 < index < self.devices@.len()),
    {
        index > 0 && index < self.devices.len()
    }

    /// Whether the row at `index` can move down.
    pub fn can_move_down(&self, index: usize) -> (b: bool)
        ensures
            b == (index + 1 < self.devices@.len()),
    {
        index < self.devices.len() && self.devices.len() - index > 1
    }
}

/// Something the user did in the Settings window.
#[derive(Debug, Clone, Eq)]
pub enum SettingsAction {
    /// A tab button was pressed.
    SelectTab(SettingsTab),
    /// A device row was clicked; it becomes the one the arrows act on.
    SelectDeviceRow(usize),
    /// Swap this row with the one above.
    MoveDeviceUp(usize),
    /// Swap this row with the one below.
    MoveDeviceDown(usize),
    /// Forget a device that is no longer present.
    RemoveDevice(usize),
    /// Bind a preset to a device.
    SetDevicePreset { device: usize, preset: usize },
    /// A newly seen device goes to the top of the list rather than the bottom.
    SetPrioritizeNewOutput(bool),
    /// Restore the factory presets. Destructive: the owner asks first.
    ResetPresets,
    /// A new interface language: a code, or `None` to follow the desktop session.
    SetLanguage(Option<String>),
    /// Write or remove the autostart entry.
    SetLaunchOnStartup(bool),
    SetHideHelpTips(bool),
    SetHideNotifications(bool),
    /// Show the shipped compositor configuration example.
    ShowHotkeyExample,
    /// Open a URL in the user's browser.
    OpenUrl(String),
    /// Show the bundled changelog.
    ShowChangelog,
    /// Close the window: the ✕ or Escape.
    Close,
}

impl PartialEq for SettingsAction {
    fn eq(&self, other: &Self) -> (r: bool) {
        match (self, other) {
            (SettingsAction::SelectTab(a), SettingsAction::SelectTab(b)) => *a == *b,
            (SettingsAction::SelectDeviceRow(a), SettingsAction::SelectDeviceRow(b)) => *a == *b,
            (SettingsAction::MoveDeviceUp(a), SettingsAction::MoveDeviceUp(b)) => *a == *b,
            (SettingsAction::MoveDeviceDown(a), SettingsAction::MoveDeviceDown(b)) => *a == *b,
            (SettingsAction::RemoveDevice(a), SettingsAction::RemoveDevice(b)) => *a == *b,
            (
                SettingsAction::SetDevicePreset { device: d, preset: p },
                SettingsAction::SetDevicePreset { device: e, preset: q },
            ) => *d == *e && *p == *q,
            (SettingsAction::SetPrioritizeNewOutput(a), SettingsAction::SetPrioritizeNewOutput(b)) => *a == *b,
            (SettingsAction::ResetPresets, SettingsAction::ResetPresets) => true,
            (SettingsAction::SetLanguage(a), SettingsAction::SetLanguage(b)) => match (a, b) {
                (Some(x), Some(y)) => str_equal(x.as_str(), y.as_str()),
                (None, None) => true,
                _ => false,
            },
            (SettingsAction::SetLaunchOnStartup(a), SettingsAction::SetLaunchOnStartup(b)) => *a == *b,
            (SettingsAction::SetHideHelpTips(a), SettingsAction::SetHideHelpTips(b)) => *a == *b,
            (SettingsAction::SetHideNotifications(a), SettingsAction::SetHideNotifications(b)) => *a == *b,
            (SettingsAction::ShowHotkeyExample, SettingsAction::ShowHotkeyExample) => true,
            (SettingsAction::OpenUrl(a), SettingsAction::OpenUrl(b)) => str_equal(a.as_str(), b.as_str()),
            (SettingsAction::ShowChangelog, SettingsAction::ShowChangelog) => true,
            (SettingsAction::Close, SettingsAction::Close) => true,
            _ => false,
        }
    }
}

impl PartialEqSpecImpl for SettingsAction {
    open spec fn obeys_eq_spec() -> bool {
        true
    }

    open spec fn eq_spec(&self, other: &Self) -> bool {
        same_action(*self, *other)
    }
}

/// What the pointer did to one device row in a frame.
#[derive(Debug, Clone, Copy, PartialEq, Eq, Default)]
pub struct DeviceRowEvents {
    /// The row itself was clicked.
    pub clicked: bool,
    /// Its ▲ was clicked.
    pub up_clicked: bool,
    /// Its ▼ was clicked.
    pub down_clicked: bool,
    /// Its ✕ was clicked.
    pub remove_clicked: bool,
    /// A preset was picked from its combo.
    pub preset_picked: Option<usize>,
}

/// What the user did to the Settings window in one frame.
#[derive(Debug, Clone, PartialEq, Eq, Default)]
pub struct SettingsEvents {
    /// The title bar's ✕.
    pub close_clicked: bool,
    pub escape_pressed: bool,
    /// A tab button that was clicked.
    pub tab_clicked: Option<SettingsTab>,
    /// One entry per device row, top to bottom.
    pub rows: Vec<DeviceRowEvents>,
    /// Shift+Up and Shift+Down.
    pub shift_up: bool,
    pub shift_down: bool,
    /// The "prioritize new output devices" checkbox.
    pub prioritize_clicked: bool,
    /// The reset button.
    pub reset_clicked: bool,
    /// The language switch's ‹ and ›.
    pub language_prev: bool,
    pub language_next: bool,
    /// The General pane's three checkboxes.
    pub launch_clicked: bool,
    pub help_tips_clicked: bool,
    pub notifications_clicked: bool,
    /// The link to the compositor configuration example.
    pub hotkey_example_clicked: bool,
    /// The Help pane's changelog link.
    pub changelog_clicked: bool,
}

/// `s` with `a` appended when `cond` holds.
pub open spec fn push_when(s: Seq<SettingsAction>, cond: bool, a: SettingsAction) -> Seq<
    SettingsAction,
> {
    if cond {
        s.push(a)
    } else {
        s
    }
}

/// `s` followed by what the device row at `i` produces: its own click, then ▲ (which only the
/// rows below the first have), ▼ (only the rows above the last), ✕ (only absent devices), then
/// the picked preset, when it is one of the listed presets.
pub open spec fn after_row(
    s: Seq<SettingsAction>,
    state: SettingsState,
    e: DeviceRowEvents,
    i: int,
) -> Seq<SettingsAction> {
    let count = state.devices@.len();
    let s1 = push_when(s, e.clicked, SettingsAction::SelectDeviceRow(i as usize));
    let s2 = push_when(s1, i > 0 && e.up_clicked, SettingsAction::MoveDeviceUp(i as usize));
    let s3 = push_when(
        s2,
        i + 1 < count && e.down_clicked,
        SettingsAction::MoveDeviceDown(i as usize),
    );
    let s4 = push_when(
        s3,
        !state.devices@[i].present && e.remove_clicked,
        SettingsAction::RemoveDevice(i as usize),
    );
    match e.preset_picked {
        Some(p) => push_when(
            s4,
            p < state.presets@.len(),
            SettingsAction::SetDevicePreset { device: i as usize, preset: p },
        ),
        None => s4,
    }
}

/// `s` followed by what the first `n` rows produce, top to bottom.
pub open spec fn after_rows(
    s: Seq<SettingsAction>,
    state: SettingsState,
    rows: Seq<DeviceRowEvents>,
    n: int,
) -> Seq<SettingsAction>
    decreases n,
{
    if n <= 0 {
        s
    } else {
        after_row(after_rows(s, state, rows, n - 1), state, rows[n - 1], n - 1)
    }
}

/// How many rows there are events for.
pub open spec fn row_count(state: SettingsState, events: SettingsEvents) -> int {
    if events.rows@.len() < state.devices@.len() {
        events.rows@.len() as int
    } else {
        state.devices@.len() as int
    }
}

/// `s` followed by the Audio pane's actions: the rows, the keyboard moves of the selected row,
/// the checkbox, and the reset button, which only answers while there is something to reset.
pub open spec fn after_audio(
    s: Seq<SettingsAction>,
    state: SettingsState,
    events: SettingsEvents,
) -> Seq<SettingsAction> {
    let rows = after_rows(s, state, events.rows@, row_count(state, events));
    let keys = match state.selected_device {
        Some(i) => push_when(
            push_when(
                rows,
                events.shift_up && 0 < i < state.devices@.len(),
                SettingsAction::MoveDeviceUp(i),
            ),
            events.shift_down && i + 1 < state.devices@.len(),
            SettingsAction::MoveDeviceDown(i),
        ),
        None => rows,
    };
    push_when(
        push_when(
            keys,
            events.prioritize_clicked,
            SettingsAction::SetPrioritizeNewOutput(!state.settings.prioritize_new_output),
        ),
        events.reset_clicked && state.can_reset_presets,
        SettingsAction::ResetPresets,
    )
}

/// The language a click on the switch moves to: ‹ wins over ›.
pub open spec fn language_target(state: SettingsState, events: SettingsEvents) -> Option<
    LanguageChoice,
> {
    let choice = current_choice(state.settings);
    if events.language_prev {
        Some(choice_at((choice_index(choice) - 1) % (CHOICE_COUNT as int)))
    } else if events.language_next {
        Some(choice_at((choice_index(choice) + 1) % (CHOICE_COUNT as int)))
    } else {
        None
    }
}

/// The setting a choice carries, as a value of the action.
pub open spec fn setting_string(c: LanguageChoice) -> Option<String> {
    match c {
        LanguageChoice::System => None,
        LanguageChoice::Code(code) => Some(string_with(code@)),
    }
}

/// A string holding exactly `s`.
pub open spec fn string_with(s: Seq<char>) -> String {
    choose|t: String| t@ == s
}

/// `s` followed by the General pane's actions: the language switch, the three checkboxes, each
/// asking for the opposite of what it shows, and the example link.
pub open spec fn after_general(
    s: Seq<SettingsAction>,
    state: SettingsState,
    events: SettingsEvents,
) -> Seq<SettingsAction> {
    let language = match language_target(state, events) {
        Some(c) => s.push(SettingsAction::SetLanguage(setting_string(c))),
        None => s,
    };
    let launch = push_when(
        language,
        events.launch_clicked,
        SettingsAction::SetLaunchOnStartup(!state.launch_on_startup),
    );
    let tips = push_when(
        launch,
        events.help_tips_clicked,
        SettingsAction::SetHideHelpTips(!state.settings.hide_help_tooltips),
    );
    let notes = push_when(
        tips,
        events.notifications_clicked,
        SettingsAction::SetHideNotifications(!state.settings.hide_notifications),
    );
    push_when(notes, events.hotkey_example_clicked, SettingsAction::ShowHotkeyExample)
}

/// Everything one frame of the window produces, in order: the ✕ and Escape, the tab button,
/// then the showing pane's actions.
pub open spec fn settings_actions(state: SettingsState, events: SettingsEvents) -> Seq<
    SettingsAction,
> {
    let closed = push_when(
        push_when(Seq::empty(), events.close_clicked, SettingsAction::Close),
        events.escape_pressed,
        SettingsAction::Close,
    );
    let chrome = match events.tab_clicked {
        Some(t) => closed.push(SettingsAction::SelectTab(t)),
        None => closed,
    };
    match state.tab {
        SettingsTab::Audio => after_audio(chrome, state, events),
        SettingsTab::General => after_general(chrome, state, events),
        SettingsTab::Help => push_when(
            chrome,
            events.changelog_clicked,
            SettingsAction::ShowChangelog,
        ),
    }
}

/// Whether `a` is the action `b` stands for: equal, with the strings they carry compared by
/// their characters.
pub open spec fn same_action(a: SettingsAction, b: SettingsAction) -> bool {
    match a {
        SettingsAction::SetLanguage(x) => match b {
            SettingsAction::SetLanguage(y) => match (x, y) {
                (Some(s), Some(t)) => s@ == t@,
                (None, None) => true,
                _ => false,
            },
            _ => false,
        },
        SettingsAction::OpenUrl(x) => match b {
            SettingsAction::OpenUrl(y) => x@ == y@,
            _ => false,
        },
        _ => a == b,
    }
}

/// Two lists of actions that match one for one.
pub open spec fn same_actions(x: Seq<SettingsAction>, y: Seq<SettingsAction>) -> bool {
    &&& x.len() == y.len()
    &&& forall|i: int| 0 <= i < x.len() ==> same_action(#[trigger] x[i], y[i])
}

/// Every list of actions matches itself.
pub proof fn lemma_same_actions_refl(x: Seq<SettingsAction>)
    ensures
        same_actions(x, x),
{
    assert forall|i: int| 0 <= i < x.len() implies same_action(#[trigger] x[i], x[i]) by {
        match x[i] {
            SettingsAction::SetLanguage(v) => {
                match v {
                    Some(s) => {},
                    None => {},
                }
            },
            _ => {},
        }
    }
}

/// Matching lists stay matching when matching actions are appended.
pub proof fn lemma_same_actions_push(x: Seq<SettingsAction>, y: Seq<SettingsAction>, a: SettingsAction, b: SettingsAction)
    requires
        same_actions(x, y),
        same_action(a, b),
    ensures
        same_actions(x.push(a), y.push(b)),
{
    assert forall|i: int| 0 <= i < x.push(a).len() implies same_action(#[trigger] x.push(a)[i], y.push(b)[i]) by {
        if i < x.len() {
            assert(x.push(a)[i] == x[i]);
            assert(y.push(b)[i] == y[i]);
        }
    }
}

/// Appending `a` on a condition adds `a` and nothing else.
proof fn lemma_push_when_contains(s: Seq<SettingsAction>, c: bool, a: SettingsAction, x: SettingsAction)
    ensures
        push_when(s, c, a).contains(x) <==> (s.contains(x) || (c && x == a)),
{
    if c {
        if s.push(a).contains(x) {
            let k = choose|k: int| 0 <= k < s.push(a).len() && s.push(a)[k] == x;
            if k < s.len() {
                assert(s[k] == x);
            }
        }
        if s.contains(x) {
            let k = choose|k: int| 0 <= k < s.len() && s[k] == x;
            assert(s.push(a)[k] == x);
        }
        assert(s.push(a)[s.len() as int] == a);
    }
}

/// The device rows ask only for row actions: they never touch the checkbox.
proof fn lemma_rows_leave_the_checkbox(
    s: Seq<SettingsAction>,
    state: SettingsState,
    rows: Seq<DeviceRowEvents>,
    n: int,
    b: bool,
)
    ensures
        after_rows(s, state, rows, n).contains(SettingsAction::SetPrioritizeNewOutput(b))
            <==> s.contains(SettingsAction::SetPrioritizeNewOutput(b)),
    decreases n,
{
    let x = SettingsAction::SetPrioritizeNewOutput(b);
    if n > 0 {
        let i = n - 1;
        let e = rows[i];
        let count = state.devices@.len();
        lemma_rows_leave_the_checkbox(s, state, rows, i, b);
        let t = after_rows(s, state, rows, i);
        let s1 = push_when(t, e.clicked, SettingsAction::SelectDeviceRow(i as usize));
        lemma_push_when_contains(t, e.clicked, SettingsAction::SelectDeviceRow(i as usize), x);
        let s2 = push_when(s1, i > 0 && e.up_clicked, SettingsAction::MoveDeviceUp(i as usize));
        lemma_push_when_contains(s1, i > 0 && e.up_clicked, SettingsAction::MoveDeviceUp(i as usize), x);
        let s3 = push_when(s2, i + 1 < count && e.down_clicked, SettingsAction::MoveDeviceDown(i as usize));
        lemma_push_when_contains(s2, i + 1 < count && e.down_clicked, SettingsAction::MoveDeviceDown(i as usize), x);
        let s4 = push_when(s3, !state.devices@[i].present && e.remove_clicked, SettingsAction::RemoveDevice(i as usize));
        lemma_push_when_contains(s3, !state.devices@[i].present && e.remove_clicked, SettingsAction::RemoveDevice(i as usize), x);
        match e.preset_picked {
            Some(p) => {
                lemma_push_when_contains(
                    s4,
                    p < state.presets@.len(),
                    SettingsAction::SetDevicePreset { device: i as usize, preset: p },
                    x,
                );
            },
            None => {},
        }
    }
}

/// The Audio pane's checkbox asks for the opposite of what it shows, and only when it is clicked:
/// a frame asks for `SetPrioritizeNewOutput(b)` exactly when the Audio pane is showing, the box
/// was clicked, and `b` is the box's state flipped. No other control, and no other pane, asks
/// for it.
pub proof fn lemma_the_checkbox_asks_for_the_opposite(state: SettingsState, events: SettingsEvents, b: bool)
    ensures
        settings_actions(state, events).contains(SettingsAction::SetPrioritizeNewOutput(b))
            <==> (state.tab == SettingsTab::Audio && events.prioritize_clicked
                && b == !state.settings.prioritize_new_output),
{
    let x = SettingsAction::SetPrioritizeNewOutput(b);
    let e0 = Seq::<SettingsAction>::empty();
    assert(!e0.contains(x));
    let c1 = push_when(e0, events.close_clicked, SettingsAction::Close);
    lemma_push_when_contains(e0, events.close_clicked, SettingsAction::Close, x);
    let closed = push_when(c1, events.escape_pressed, SettingsAction::Close);
    lemma_push_when_contains(c1, events.escape_pressed, SettingsAction::Close, x);
    let chrome = match events.tab_clicked {
        Some(t) => closed.push(SettingsAction::SelectTab(t)),
        None => closed,
    };
    match events.tab_clicked {
        Some(t) => lemma_push_when_contains(closed, true, SettingsAction::SelectTab(t), x),
        None => {},
    }
    assert(!chrome.contains(x));
    match state.tab {
        SettingsTab::Audio => {
            let rows = after_rows(chrome, state, events.rows@, row_count(state, events));
            lemma_rows_leave_the_checkbox(chrome, state, events.rows@, row_count(state, events), b);
            let keys = match state.selected_device {
                Some(i) => push_when(
                    push_when(rows, events.shift_up && 0 < i < state.devices@.len(), SettingsAction::MoveDeviceUp(i)),
                    events.shift_down && i + 1 < state.devices@.len(),
                    SettingsAction::MoveDeviceDown(i),
                ),
                None => rows,
            };
            match state.selected_device {
                Some(i) => {
                    let k1 = push_when(rows, events.shift_up && 0 < i < state.devices@.len(), SettingsAction::MoveDeviceUp(i));
                    lemma_push_when_contains(rows, events.shift_up && 0 < i < state.devices@.len(), SettingsAction::MoveDeviceUp(i), x);
                    lemma_push_when_contains(k1, events.shift_down && i + 1 < state.devices@.len(), SettingsAction::MoveDeviceDown(i), x);
                },
                None => {},
            }
            let p = SettingsAction::SetPrioritizeNewOutput(!state.settings.prioritize_new_output);
            let k2 = push_when(keys, events.prioritize_clicked, p);
            lemma_push_when_contains(keys, events.prioritize_clicked, p, x);
            lemma_push_when_contains(k2, events.reset_clicked && state.can_reset_presets, SettingsAction::ResetPresets, x);
        },
        SettingsTab::General => {
            let language = match language_target(state, events) {
                Some(c) => chrome.push(SettingsAction::SetLanguage(setting_string(c))),
                None => chrome,
            };
            match language_target(state, events) {
                Some(c) => lemma_push_when_contains(chrome, true, SettingsAction::SetLanguage(setting_string(c)), x),
                None => {},
            }
            let a1 = SettingsAction::SetLaunchOnStartup(!state.launch_on_startup);
            let launch = push_when(language, events.launch_clicked, a1);
            lemma_push_when_contains(language, events.launch_clicked, a1, x);
            let a2 = SettingsAction::SetHideHelpTips(!state.settings.hide_help_tooltips);
            let tips = push_when(launch, events.help_tips_clicked, a2);
            lemma_push_when_contains(launch, events.help_tips_clicked, a2, x);
            let a3 = SettingsAction::SetHideNotifications(!state.settings.hide_notifications);
            let notes = push_when(tips, events.notifications_clicked, a3);
            lemma_push_when_contains(tips, events.notifications_clicked, a3, x);
            lemma_push_when_contains(notes, events.hotkey_example_clicked, SettingsAction::ShowHotkeyExample, x);
        },
        SettingsTab::Help => {
            lemma_push_when_contains(chrome, events.changelog_clicked, SettingsAction::ShowChangelog, x);
        },
    }
}

/// Matching lists stay matching when the same action is appended to both on the same condition.
pub proof fn lemma_same_actions_push_when(x: Seq<SettingsAction>, y: Seq<SettingsAction>, c: bool, a: SettingsAction)
    requires
        same_actions(x, y),
    ensures
        same_actions(push_when(x, c, a), push_when(y, c, a)),
{
    if c {
        lemma_same_actions_refl(seq![a]);
        lemma_same_actions_push(x, y, a, a);
    }
}

/// The Settings window over one state.
pub struct SettingsDialog<'a> {
    state: &'a SettingsState,
}

impl<'a> SettingsDialog<'a> {
    /// The window over `state`.
    pub fn new(state: &'a SettingsState) -> (d: Self)
        ensures
            d.state() == *state,
    {
        SettingsDialog { state }
    }

    /// The state the window draws.
    pub closed spec fn state(&self) -> SettingsState {
        *self.state
    }

    fn push_row(&self, response: &mut DialogResponse<SettingsAction>, e: DeviceRowEvents, i: usize)
        requires
            i < self.state().devices@.len(),
        ensures
            final(response).actions@ == after_row(old(response).actions@, self.state(), e, i as int),
    {
        let count = self.state.devices.len();
        response.push_if(e.clicked, SettingsAction::SelectDeviceRow(i));
        response.push_if(i > 0 && e.up_clicked, SettingsAction::MoveDeviceUp(i));
        response.push_if(count - i > 1 && e.down_clicked, SettingsAction::MoveDeviceDown(i));
        let present = self.state.devices[i].present;
        response.push_if(!present && e.remove_clicked, SettingsAction::RemoveDevice(i));
        if let Some(p) = e.preset_picked {
            response.push_if(
                p < self.state.presets.len(),
                SettingsAction::SetDevicePreset { device: i, preset: p },
            );
        }
    }

    fn push_audio(&self, response: &mut DialogResponse<SettingsAction>, events: &SettingsEvents)
        ensures
            final(response).actions@ == after_audio(old(response).actions@, self.state(), *events),
    {
        let n = if events.rows.len() < self.state.devices.len() {
            events.rows.len()
        } else {
            self.state.devices.len()
        };
        let mut i: usize = 0;
        while i < n
            invariant
                i <= n,
                n == row_count(self.state(), *events),
                n <= self.state().devices@.len(),
                n <= events.rows@.len(),
                response.actions@ == after_rows(old(response).actions@, self.state(), events.rows@, i as int),
            decreases n - i,
        {
            self.push_row(response, events.rows[i], i);
            i = i + 1;
        }
        if let Some(index) = self.state.selected_device {
            response.push_if(events.shift_up && self.state.can_move_up(index), SettingsAction::MoveDeviceUp(index));
            response.push_if(events.shift_down && self.state.can_move_down(index), SettingsAction::MoveDeviceDown(index));
        }
        response.push_if(
            events.prioritize_clicked,
            SettingsAction::SetPrioritizeNewOutput(!self.state.settings.prioritize_new_output),
        );
        response.push_if(events.reset_clicked && self.state.can_reset_presets, SettingsAction::ResetPresets);
    }

    /// The actions one frame produces, given what the user did.
    #[verifier::rlimit(40)]
    pub fn actions(&self, events: &SettingsEvents) -> (r: DialogResponse<SettingsAction>)
        ensures
            same_actions(r.actions@, settings_actions(self.state(), *events)),
    {
        let mut response = DialogResponse::new();
        response.push_if(events.close_clicked, SettingsAction::Close);
        response.push_if(events.escape_pressed, SettingsAction::Close);
        if let Some(tab) = events.tab_clicked {
            response.push(SettingsAction::SelectTab(tab));
        }
        match self.state.tab {
            SettingsTab::Audio => {
                self.push_audio(&mut response, events);
                proof {
                    lemma_same_actions_refl(response.actions@);
                }
            },
            SettingsTab::General => {
                let ghost chrome = response.actions@;
                let choice = LanguageChoice::current(&self.state.settings);
                let target = if events.language_prev {
                    Some(choice.step(-1))
                } else if events.language_next {
                    Some(choice.step(1))
                } else {
                    None
                };
                proof {
                    lemma_same_actions_refl(chrome);
                }
                let ghost spec_language = match language_target(self.state(), *events) {
                    Some(c) => chrome.push(SettingsAction::SetLanguage(setting_string(c))),
                    None => chrome,
                };
                if let Some(next) = target {
                    let value = next.setting();
                    proof {
                        if value is Some {
                            let t = value->0;
                            assert(exists|w: String| w@ == t@);
                        }
                    }
                    let ghost action = SettingsAction::SetLanguage(value);
                    proof {
                        lemma_same_actions_push(chrome, chrome, action, SettingsAction::SetLanguage(setting_string(next)));
                    }
                    response.push(SettingsAction::SetLanguage(value));
                }
                let ghost x0 = response.actions@;
                assert(same_actions(x0, spec_language));
                response.push_if(
                    events.launch_clicked,
                    SettingsAction::SetLaunchOnStartup(!self.state.launch_on_startup),
                );
                let ghost a1 = SettingsAction::SetLaunchOnStartup(!self.state().launch_on_startup);
                proof {
                    lemma_same_actions_push_when(x0, spec_language, events.launch_clicked, a1);
                }
                let ghost x1 = response.actions@;
                let ghost y1 = push_when(spec_language, events.launch_clicked, a1);
                response.push_if(
                    events.help_tips_clicked,
                    SettingsAction::SetHideHelpTips(!self.state.settings.hide_help_tooltips),
                );
                let ghost a2 = SettingsAction::SetHideHelpTips(!self.state().settings.hide_help_tooltips);
                proof {
                    lemma_same_actions_push_when(x1, y1, events.help_tips_clicked, a2);
                }
                let ghost x2 = response.actions@;
                let ghost y2 = push_when(y1, events.help_tips_clicked, a2);
                response.push_if(
                    events.notifications_clicked,
                    SettingsAction::SetHideNotifications(!self.state.settings.hide_notifications),
                );
                let ghost a3 = SettingsAction::SetHideNotifications(!self.state().settings.hide_notifications);
                proof {
                    lemma_same_actions_push_when(x2, y2, events.notifications_clicked, a3);
                }
                let ghost x3 = response.actions@;
                let ghost y3 = push_when(y2, events.notifications_clicked, a3);
                response.push_if(events.hotkey_example_clicked, SettingsAction::ShowHotkeyExample);
                proof {
                    lemma_same_actions_push_when(x3, y3, events.hotkey_example_clicked, SettingsAction::ShowHotkeyExample);
                }
            },
            SettingsTab::Help => {
                response.push_if(events.changelog_clicked, SettingsAction::ShowChangelog);
                proof {
                    lemma_same_actions_refl(response.actions@);
                }
            },
        }
        response
    }
}

/// Every position of the switch is where its own choice sits.
pub proof fn lemma_choice_positions(i: int)
    requires
        0 <= i < CHOICE_COUNT,
    ensures
        choice_index(choice_at(i)) == i,
{
    if i > 0 {
        lemma_codes_are_distinct(i - 1);
    }
}

/// The language switch wraps in both directions: from any position, `n` steps one way and `n`
/// back the other return to that position, and a whole turn of the switch changes nothing.
pub proof fn lemma_language_step_round_trip(c: LanguageChoice, n: int)
    ensures
        choice_at(
            (choice_index(choice_at((choice_index(c) + n) % (CHOICE_COUNT as int))) - n) % (
            CHOICE_COUNT as int),
        ) == choice_at(choice_index(c)),
        choice_at((choice_index(c) + CHOICE_COUNT) % (CHOICE_COUNT as int)) == choice_at(
            choice_index(c),
        ),
{
    match c {
        LanguageChoice::Code(code) => lemma_find_code_range(code@, 0),
        LanguageChoice::System => {},
    }
    let i = choice_index(c);
    let m = (i + n) % 30;
    assert(0 <= m < 30);
    lemma_choice_positions(m);
    assert((m - n) % 30 == i) by {
        assert(0 <= i < 30);
        vstd::arithmetic::div_mod::lemma_fundamental_div_mod(i + n, 30);
        vstd::arithmetic::div_mod::lemma_mod_multiples_vanish((i + n) / 30, i, 30);
    }
    assert((i + 30) % 30 == i);
}

/// What a language change stores is what the switch shows afterwards: settings that follow the
/// system sit on the system entry, and settings holding a code of the table sit on that code.
pub proof fn lemma_setting_selects_its_choice(i: int, s: Settings)
    requires
        0 <= i < CHOICE_COUNT,
        match choice_setting(choice_at(i)) {
            None => s.language_follows_system,
            Some(code) => !s.language_follows_system && s.language@ == code,
        },
    ensures
        current_choice(s) == choice_at(i),
{
    if i > 0 {
        lemma_codes_are_distinct(i - 1);
    }
}

/// Whether an action of the Settings window can be carried out on the state it came from: a row
/// it names exists, a row moves only where there is room, only an absent device is removed, a
/// device is only given a listed preset, and the presets are only reset while there is something
/// to reset.
pub open spec fn possible(state: SettingsState, a: SettingsAction) -> bool {
    let count = state.devices@.len();
    match a {
        SettingsAction::SelectDeviceRow(i) => i < count,
        SettingsAction::MoveDeviceUp(i) => 0 < i < count,
        SettingsAction::MoveDeviceDown(i) => i + 1 < count,
        SettingsAction::RemoveDevice(i) => i < count && !state.devices@[i as int].present,
        SettingsAction::SetDevicePreset { device, preset } => device < count
            && preset < state.presets@.len(),
        SettingsAction::ResetPresets => state.can_reset_presets,
        _ => true,
    }
}

/// Whether every action of a list is possible.
pub open spec fn all_possible(state: SettingsState, s: Seq<SettingsAction>) -> bool {
    forall|k: int| 0 <= k < s.len() ==> possible(state, #[trigger] s[k])
}

proof fn lemma_push_when_possible(state: SettingsState, s: Seq<SettingsAction>, c: bool, a: SettingsAction)
    requires
        all_possible(state, s),
        c ==> possible(state, a),
    ensures
        all_possible(state, push_when(s, c, a)),
{
    if c {
        assert forall|k: int| 0 <= k < s.push(a).len() implies possible(state, #[trigger] s.push(a)[k]) by {
            if k < s.len() {
                assert(s.push(a)[k] == s[k]);
            }
        }
    }
}

proof fn lemma_rows_possible(state: SettingsState, s: Seq<SettingsAction>, rows: Seq<DeviceRowEvents>, n: int)
    requires
        all_possible(state, s),
        n <= state.devices@.len(),
        n <= rows.len(),
    ensures
        all_possible(state, after_rows(s, state, rows, n)),
    decreases n,
{
    if n > 0 {
        lemma_rows_possible(state, s, rows, n - 1);
        let i = n - 1;
        let e = rows[i];
        let count = state.devices@.len();
        assert(state.devices@.len() == state.devices.len());
        assert((i as usize) as int == i);
        let t = after_rows(s, state, rows, i);
        let s1 = push_when(t, e.clicked, SettingsAction::SelectDeviceRow(i as usize));
        lemma_push_when_possible(state, t, e.clicked, SettingsAction::SelectDeviceRow(i as usize));
        let s2 = push_when(s1, i > 0 && e.up_clicked, SettingsAction::MoveDeviceUp(i as usize));
        lemma_push_when_possible(state, s1, i > 0 && e.up_clicked, SettingsAction::MoveDeviceUp(i as usize));
        let s3 = push_when(s2, i + 1 < count && e.down_clicked, SettingsAction::MoveDeviceDown(i as usize));
        lemma_push_when_possible(state, s2, i + 1 < count && e.down_clicked, SettingsAction::MoveDeviceDown(i as usize));
        let s4 = push_when(s3, !state.devices@[i].present && e.remove_clicked, SettingsAction::RemoveDevice(i as usize));
        lemma_push_when_possible(state, s3, !state.devices@[i].present && e.remove_clicked, SettingsAction::RemoveDevice(i as usize));
        match e.preset_picked {
            Some(p) => {
                lemma_push_when_possible(
                    state,
                    s4,
                    p < state.presets@.len(),
                    SettingsAction::SetDevicePreset { device: i as usize, preset: p },
                );
            },
            None => {},
        }
    }
}

proof fn lemma_audio_possible(state: SettingsState, s: Seq<SettingsAction>, events: SettingsEvents)
    requires
        all_possible(state, s),
    ensures
        all_possible(state, after_audio(s, state, events)),
{
    let rows = after_rows(s, state, events.rows@, row_count(state, events));
    lemma_rows_possible(state, s, events.rows@, row_count(state, events));
    let count = state.devices@.len();
    let keys = match state.selected_device {
        Some(i) => {
            let up = SettingsAction::MoveDeviceUp(i);
            let down = SettingsAction::MoveDeviceDown(i);
            let k1 = push_when(rows, events.shift_up && 0 < i < count, up);
            lemma_push_when_possible(state, rows, events.shift_up && 0 < i < count, up);
            lemma_push_when_possible(state, k1, events.shift_down && i + 1 < count, down);
            push_when(k1, events.shift_down && i + 1 < count, down)
        },
        None => rows,
    };
    let toggle = SettingsAction::SetPrioritizeNewOutput(!state.settings.prioritize_new_output);
    let p = push_when(keys, events.prioritize_clicked, toggle);
    lemma_push_when_possible(state, keys, events.prioritize_clicked, toggle);
    lemma_push_when_possible(state, p, events.reset_clicked && state.can_reset_presets, SettingsAction::ResetPresets);
}

proof fn lemma_general_possible(state: SettingsState, s: Seq<SettingsAction>, events: SettingsEvents)
    requires
        all_possible(state, s),
    ensures
        all_possible(state, after_general(s, state, events)),
{
    let language = match language_target(state, events) {
        Some(c) => s.push(SettingsAction::SetLanguage(setting_string(c))),
        None => s,
    };
    match language_target(state, events) {
        Some(c) => lemma_push_when_possible(state, s, true, SettingsAction::SetLanguage(setting_string(c))),
        None => {},
    }
    let a1 = SettingsAction::SetLaunchOnStartup(!state.launch_on_startup);
    let a2 = SettingsAction::SetHideHelpTips(!state.settings.hide_help_tooltips);
    let a3 = SettingsAction::SetHideNotifications(!state.settings.hide_notifications);
    let l1 = push_when(language, events.launch_clicked, a1);
    lemma_push_when_possible(state, language, events.launch_clicked, a1);
    let l2 = push_when(l1, events.help_tips_clicked, a2);
    lemma_push_when_possible(state, l1, events.help_tips_clicked, a2);
    let l3 = push_when(l2, events.notifications_clicked, a3);
    lemma_push_when_possible(state, l2, events.notifications_clicked, a3);
    lemma_push_when_possible(state, l3, events.hotkey_example_clicked, SettingsAction::ShowHotkeyExample);
}

/// Every action the Settings window asks for can be carried out on the state it was drawn from.
pub proof fn lemma_settings_actions_are_possible(state: SettingsState, events: SettingsEvents)
    ensures
        all_possible(state, settings_actions(state, events)),
{
    let e0 = Seq::<SettingsAction>::empty();
    let c1 = push_when(e0, events.close_clicked, SettingsAction::Close);
    lemma_push_when_possible(state, e0, events.close_clicked, SettingsAction::Close);
    let closed = push_when(c1, events.escape_pressed, SettingsAction::Close);
    lemma_push_when_possible(state, c1, events.escape_pressed, SettingsAction::Close);
    let chrome = match events.tab_clicked {
        Some(t) => closed.push(SettingsAction::SelectTab(t)),
        None => closed,
    };
    match events.tab_clicked {
        Some(t) => lemma_push_when_possible(state, closed, true, SettingsAction::SelectTab(t)),
        None => {},
    }
    match state.tab {
        SettingsTab::Audio => lemma_audio_possible(state, chrome, events),
        SettingsTab::General => lemma_general_possible(state, chrome, events),
        SettingsTab::Help => lemma_push_when_possible(state, chrome, events.changelog_clicked, SettingsAction::ShowChangelog),
    }
}

/// A row event in which nothing happened.
pub open spec fn quiet_row(e: DeviceRowEvents) -> bool {
    !e.clicked && !e.up_clicked && !e.down_clicked && !e.remove_clicked && e.preset_picked is None
}

/// A frame in which the user did nothing.
pub open spec fn quiet(events: SettingsEvents) -> bool {
    &&& !events.close_clicked && !events.escape_pressed && events.tab_clicked is None
    &&& forall|k: int| 0 <= k < events.rows@.len() ==> quiet_row(#[trigger] events.rows@[k])
    &&& !events.shift_up && !events.shift_down && !events.prioritize_clicked && !events.reset_clicked
    &&& !events.language_prev && !events.language_next
    &&& !events.launch_clicked && !events.help_tips_clicked && !events.notifications_clicked
    &&& !events.hotkey_example_clicked && !events.changelog_clicked
}

proof fn lemma_quiet_rows(state: SettingsState, s: Seq<SettingsAction>, rows: Seq<DeviceRowEvents>, n: int)
    requires
        n <= rows.len(),
        forall|k: int| 0 <= k < rows.len() ==> quiet_row(#[trigger] rows[k]),
    ensures
        after_rows(s, state, rows, n) == s,
    decreases n,
{
    if n > 0 {
        lemma_quiet_rows(state, s, rows, n - 1);
        assert(quiet_row(rows[n - 1]));
    }
}

/// Drawing the window asks for nothing on its own: a frame in which the user did nothing
/// produces no action, whatever the state and whichever pane is showing.
pub proof fn lemma_quiet_frame_asks_nothing(state: SettingsState, events: SettingsEvents)
    requires
        quiet(events),
    ensures
        settings_actions(state, events) == Seq::<SettingsAction>::empty(),
{
    lemma_quiet_rows(state, Seq::empty(), events.rows@, row_count(state, events));
}

} // verus!
