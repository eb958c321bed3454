//! What the main window knows: the preset list and which entry is selected, the power switch
//! and the direction of the running chain.
//!
//! A view renders this state and returns what the user did; the owner is the only place that
//! turns an action into an effect. The continuous controls (effect amounts, equalizer gains,
//! levels, the spectrum) are the owner's, beside this state.

use vstd::prelude::*;
use crate::model::{AudioDevice, DeviceDirection, ThemeMode, ViewMode};
use crate::text::{push_str, str_equal, string_of};

verus! {

/// One preset as the combo box needs it.
#[derive(Debug, Clone, PartialEq, Eq)]
pub struct PresetEntry {
    pub name: String,
    /// A preset that ships with the app and cannot be overwritten or deleted.
    pub factory: bool,
    /// The user has unsaved changes; drawn as a trailing `*`.
    pub modified: bool,
}

/// The discrete part of what the main window draws.
#[derive(Debug, Clone)]
pub struct UiState {
    pub power: bool,
    pub theme: ThemeMode,
    pub view: ViewMode,
    pub presets: Vec<PresetEntry>,
    /// Index into `presets`, or `None` when nothing is selected.
    pub selected_preset: Option<usize>,
    /// Every playback device, then every capture device.
    pub devices: Vec<AudioDevice>,
    /// Index into `devices`, or `None` when nothing is selected.
    pub selected_device: Option<usize>,
    /// Which chain the engine runs, which follows the selected device.
    pub direction: DeviceDirection,
    pub eq_on: bool,
    /// `true` while audio is flowing; the visualizer idles otherwise.
    pub audio_active: bool,
    /// The rate the engine runs at.
    pub sample_rate: u32,
    /// Which of the microphone chain's three dynamics stages are on.
    pub gate_on: bool,
    pub compressor_on: bool,
    pub deesser_on: bool,
    /// A message for the notification strip.
    pub notification: Option<String>,
    /// Suppresses every tooltip.
    pub hide_tooltips: bool,
}

impl Default for UiState {
    fn default() -> (s: Self)
        ensures
            s.power,
            s.theme == ThemeMode::Dark,
            s.view == ViewMode::Pro,
            s.presets@.len() == 0,
            s.selected_preset is None,
            s.devices@.len() == 0,
            s.selected_device is None,
            s.direction == DeviceDirection::Output,
            s.eq_on,
            !s.audio_active,
            s.sample_rate == 48_000,
            !s.gate_on && !s.compressor_on && !s.deesser_on,
            s.notification is None,
            !s.hide_tooltips,
    {
        UiState {
            power: true,
            theme: ThemeMode::Dark,
            view: ViewMode::Pro,
            presets: Vec::new(),
            selected_preset: None,
            devices: Vec::new(),
            selected_device: None,
            direction: DeviceDirection::Output,
            eq_on: true,
            audio_active: false,
            sample_rate: 48_000,
            gate_on: false,
            compressor_on: false,
            deesser_on: false,
            notification: None,
            hide_tooltips: false,
        }
    }
}

/// The index of the selected preset when it names an entry of the list.
pub open spec fn selected_entry(s: UiState) -> Option<int> {
    match s.selected_preset {
        Some(i) => if i < s.presets@.len() {
            Some(i as int)
        } else {
            None
        },
        None => None,
    }
}

/// The closed preset box's text: the name, with `*` appended while it has unsaved changes.
pub open spec fn state_preset_label(s: UiState) -> Seq<char> {
    match selected_entry(s) {
        Some(i) => if s.presets@[i].modified {
            s.presets@[i].name@ + "*"@
        } else {
            s.presets@[i].name@
        },
        None => Seq::empty(),
    }
}

/// The next preset, wrapping; `None` with fewer than two.
pub open spec fn next_of(count: int, selected: Option<usize>) -> Option<int> {
    if count < 2 {
        None
    } else {
        match selected {
            Some(i) => Some((i + 1) % count),
            None => Some(0),
        }
    }
}

/// The previous preset, wrapping; `None` with fewer than two.
pub open spec fn previous_of(count: int, selected: Option<usize>) -> Option<int> {
    if count < 2 {
        None
    } else {
        match selected {
            Some(i) => Some((i + count - 1) % count),
            None => Some(count - 1),
        }
    }
}

impl UiState {
    /// The selected preset, if it names an entry.
    pub fn preset(&self) -> (p: Option<&PresetEntry>)
        ensures
            match selected_entry(*self) {
                Some(i) => p == Some(&self.presets@[i]),
                None => p is None,
            },
    {
        match self.selected_preset {
            Some(i) => if i < self.presets.len() {
                Some(&self.presets[i])
            } else {
                None
            },
            None => None,
        }
    }

    /// The text of the closed preset box.
    pub fn preset_label(&self) -> (s: String)
        ensures
            s@ == state_preset_label(*self),
    {
        let mut v: Vec<char> = Vec::new();
        match self.preset() {
            Some(preset) => {
                push_str(&mut v, preset.name.as_str());
                if preset.modified {
                    push_str(&mut v, "*");
                }
            },
            None => {},
        }
        string_of(&v)
    }

    /// The selected device, if it names an entry of the list.
    pub fn device(&self) -> (d: Option<&AudioDevice>)
        ensures
            match self.selected_device {
                Some(i) => if i < self.devices@.len() {
                    d == Some(&self.devices@[i as int])
                } else {
                    d is None
                },
                None => d is None,
            },
    {
        match self.selected_device {
            Some(i) => if i < self.devices.len() {
                Some(&self.devices[i])
            } else {
                None
            },
            None => None,
        }
    }

    /// Whether the controls are drawn enabled: everything greys out with the power off.
    pub fn controls_enabled(&self) -> (b: bool)
        ensures
            b == self.power,
    {
        self.power
    }

    /// Whether the five effect sliders do anything. They belong to the music chain; a
    /// microphone runs the voice chain, so on one they are inert and drawn so.
    pub fn music_effects_apply(&self) -> (b: bool)
        ensures
            b == (self.direction == DeviceDirection::Output),
    {
        match self.direction {
            DeviceDirection::Output => true,
            DeviceDirection::Input => false,
        }
    }

    /// The preset after the selected one, wrapping, or `None` when there are fewer than two.
    pub fn next_preset(&self) -> (n: Option<usize>)
        ensures
            match n {
                Some(i) => next_of(self.presets@.len() as int, self.selected_preset) == Some(
                    i as int,
                ),
                None => next_of(self.presets@.len() as int, self.selected_preset) is None,
            },
    {
        let count = self.presets.len();
        if count < 2 {
            return None;
        }
        match self.selected_preset {
            Some(i) => Some(((i as u128 + 1) % (count as u128)) as usize),
            None => Some(0),
        }
    }

    /// The preset before the selected one, wrapping, or `None` when there are fewer than two.
    pub fn previous_preset(&self) -> (n: Option<usize>)
        ensures
            match n {
                Some(i) => previous_of(self.presets@.len() as int, self.selected_preset) == Some(
                    i as int,
                ),
                None => previous_of(self.presets@.len() as int, self.selected_preset) is None,
            },
    {
        let count = self.presets.len();
        if count < 2 {
            return None;
        }
        match self.selected_preset {
            Some(i) => Some(((i as u128 + count as u128 - 1) % (count as u128)) as usize),
            None => Some(count - 1),
        }
    }
}

/// Preset navigation wraps in both directions and one step back undoes one step forward: from
/// any preset of a list of two or more, the next preset's previous one, and the previous
/// preset's next one, is where it started, and both stay inside the list.
pub proof fn lemma_next_and_previous_undo_each_other(count: int, i: usize)
    requires
        2 <= count <= usize::MAX,
        i < count,
    ensures
        next_of(count, Some(i)) matches Some(n) && 0 <= n < count && previous_of(
            count,
            Some(n as usize),
        ) == Some(i as int),
        previous_of(count, Some(i)) matches Some(p) && 0 <= p < count && next_of(
            count,
            Some(p as usize),
        ) == Some(i as int),
{
    let n = (i + 1) % count;
    let p = (i + count - 1) % count;
    assert(n == if i + 1 == count { 0 } else { i + 1 }) by {
        if i + 1 < count {
            vstd::arithmetic::div_mod::lemma_small_mod((i + 1) as nat, count as nat);
        } else {
            vstd::arithmetic::div_mod::lemma_mod_self_0(count);
        }
    }
    assert(p == if i == 0 { count - 1 } else { i - 1 }) by {
        if i == 0 {
            vstd::arithmetic::div_mod::lemma_small_mod((count - 1) as nat, count as nat);
        } else {
            vstd::arithmetic::div_mod::lemma_mod_add_multiples_vanish((i - 1) as int, count);
            vstd::arithmetic::div_mod::lemma_small_mod((i - 1) as nat, count as nat);
        }
    }
    let n2 = (n + count - 1) % count;
    assert(n2 == i) by {
        if i + 1 == count {
            vstd::arithmetic::div_mod::lemma_small_mod((count - 1) as nat, count as nat);
        } else {
            vstd::arithmetic::div_mod::lemma_mod_add_multiples_vanish(i as int, count);
            vstd::arithmetic::div_mod::lemma_small_mod(i as nat, count as nat);
        }
    }
    let p2 = (p + 1) % count;
    assert(p2 == i) by {
        if i == 0 {
            vstd::arithmetic::div_mod::lemma_mod_self_0(count);
        } else {
            vstd::arithmetic::div_mod::lemma_small_mod(i as nat, count as nat);
        }
    }
}

/// Something the user did in the main window that is not a continuous control; views emit these
/// and the owner acts on them. The continuous controls (effect amounts, equalizer gains and
/// frequencies, the filter width and the levels) report their values to the owner beside these.
#[derive(Debug, Clone, PartialEq, Eq)]
pub enum UiAction {
    /// Toggle the master power.
    TogglePower,
    /// Switch between the full and the compact window.
    ToggleView,
    /// Switch the palette.
    ToggleTheme,
    /// Select a preset by index.
    SelectPreset(usize),
    /// Save the current settings over the selected preset.
    SavePreset,
    /// Save the current settings under a new name.
    SavePresetAs(String),
    /// Discard unsaved changes and reload the selected preset.
    UndoPresetChanges,
    /// Delete the selected preset.
    DeletePreset,
    /// Select an output device by index.
    SelectDevice(usize),
    /// Switch the equalizer on or off.
    SetEqEnabled(bool),
    /// Change how many bands the equalizer has.
    SetBandCount(usize),
    /// Flatten the equalizer and return the level controls to their defaults.
    RestoreDefaults,
    /// Open the settings window.
    OpenSettings,
    /// Open the hamburger menu.
    OpenMenu,
    /// Hide to the tray.
    Minimise,
    /// Close the window.
    Close,
    /// Start moving the frameless window.
    DragWindow,
}

/// Whether two actions ask for the same thing: a name by its text, everything else by value.
pub open spec fn same_ui_action(a: UiAction, b: UiAction) -> bool {
    match a {
        UiAction::SavePresetAs(x) => match b {
            UiAction::SavePresetAs(y) => x@ == y@,
            _ => false,
        },
        _ => a == b,
    }
}

/// Whether two actions ask for the same thing.
pub fn ui_action_eq(a: &UiAction, b: &UiAction) -> (r: bool)
    ensures
        r == same_ui_action(*a, *b),
{
    match (a, b) {
        (UiAction::TogglePower, UiAction::TogglePower) => true,
        (UiAction::ToggleView, UiAction::ToggleView) => true,
        (UiAction::ToggleTheme, UiAction::ToggleTheme) => true,
        (UiAction::SelectPreset(i), UiAction::SelectPreset(j)) => *i == *j,
        (UiAction::SavePreset, UiAction::SavePreset) => true,
        (UiAction::SavePresetAs(x), UiAction::SavePresetAs(y)) => str_equal(x.as_str(), y.as_str()),
        (UiAction::UndoPresetChanges, UiAction::UndoPresetChanges) => true,
        (UiAction::DeletePreset, UiAction::DeletePreset) => true,
        (UiAction::SelectDevice(i), UiAction::SelectDevice(j)) => *i == *j,
        (UiAction::SetEqEnabled(x), UiAction::SetEqEnabled(y)) => *x == *y,
        (UiAction::SetBandCount(i), UiAction::SetBandCount(j)) => *i == *j,
        (UiAction::RestoreDefaults, UiAction::RestoreDefaults) => true,
        (UiAction::OpenSettings, UiAction::OpenSettings) => true,
        (UiAction::OpenMenu, UiAction::OpenMenu) => true,
        (UiAction::Minimise, UiAction::Minimise) => true,
        (UiAction::Close, UiAction::Close) => true,
        (UiAction::DragWindow, UiAction::DragWindow) => true,
        _ => false,
    }
}

/// What a view returns after one frame: the actions, in order.
#[derive(Debug, Clone, PartialEq, Eq)]
pub struct UiResponse {
    pub actions: Vec<UiAction>,
}

impl Default for UiResponse {
    fn default() -> (r: Self)
        ensures
            r.actions@.len() == 0,
    {
        UiResponse { actions: Vec::new() }
    }
}

impl UiResponse {
    /// Record an action after the ones already there.
    pub fn push(&mut self, action: UiAction)
        ensures
            final(self).actions@ == old(self).actions@.push(action),
    {
        self.actions.push(action);
    }

    /// Whether nothing was recorded.
    pub fn is_empty(&self) -> (b: bool)
        ensures
            b == (self.actions@.len() == 0),
    {
        self.actions.len() == 0
    }

    /// Whether an action asking for the same thing as `action` was recorded.
    pub fn contains(&self, action: &UiAction) -> (found: bool)
        ensures
            found == exists|i: int|
                0 <= i < self.actions@.len() && same_ui_action(#[trigger] self.actions@[i], *action),
    {
        let mut i: usize = 0;
        while i < self.actions.len()
            invariant
                i <= self.actions@.len(),
                forall|j: int| 0 <= j < i ==> !same_ui_action(#[trigger] self.actions@[j], *action),
            decreases self.actions@.len() - i,
        {
            if ui_action_eq(&self.actions[i], action) {
                return true;
            }
            i = i + 1;
        }
        false
    }
}

/// What the two pickers ask for: a picked preset, only while the controls are enabled, since the
/// preset list greys out with the power; then a picked device, always, since picking another
/// device is the one thing that must still work with the power off.
pub open spec fn picker_actions(
    power: bool,
    preset_picked: Option<usize>,
    device_picked: Option<usize>,
) -> Seq<UiAction> {
    let presets = match preset_picked {
        Some(i) => if power {
            seq![UiAction::SelectPreset(i)]
        } else {
            seq![]
        },
        None => seq![],
    };
    presets + match device_picked {
        Some(i) => seq![UiAction::SelectDevice(i)],
        None => seq![],
    }
}

impl UiState {
    /// Record what the preset and device pickers report for one frame.
    pub fn picker_actions(
        &self,
        response: &mut UiResponse,
        preset_picked: Option<usize>,
        device_picked: Option<usize>,
    )
        ensures
            final(response).actions@ == old(response).actions@ + picker_actions(
                self.power,
                preset_picked,
                device_picked,
            ),
    {
        if let Some(i) = preset_picked {
            if self.controls_enabled() {
                response.push(UiAction::SelectPreset(i));
            }
        }
        if let Some(i) = device_picked {
            response.push(UiAction::SelectDevice(i));
        }
        proof {
            assert(response.actions@ =~= old(response).actions@ + picker_actions(
                self.power,
                preset_picked,
                device_picked,
            ));
        }
    }
}

} // verus!
