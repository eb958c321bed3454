use fxsound_ui::dialogs::settings::{
    DevicePriority, DeviceRowEvents, HotkeyCommand, LanguageChoice, NavIcon, SettingsAction,
    SettingsDialog, SettingsEvents, SettingsState, SettingsTab, CHOICE_COUNT, WINDOW_SIZE,
    CONTENT_SIZE,
};
use fxsound_ui::dialogs::outer_size;
use fxsound_ui::i18n::{language, native_name, LANGUAGE_COUNT};
use fxsound_ui::model::Settings;

fn populated() -> SettingsState {
    let devices = vec![
        DevicePriority {
            id: "alsa_output.pci-0000_00_1f.3".into(),
            name: "Speakers".into(),
            preset: Some(1),
            connected: true,
            present: true,
        },
        DevicePriority {
            id: "bluez_output.AC_12".into(),
            name: "Headphones".into(),
            preset: None,
            connected: false,
            present: false,
        },
    ];
    SettingsState {
        version: "0.1.0".into(),
        presets: vec!["General".into(), "Rock".into(), "Jazz".into()],
        devices,
        selected_device: Some(0),
        can_reset_presets: true,
        ..SettingsState::new(Settings::default())
    }
}

#[test]
fn the_window_is_six_hundred_and_ten_by_five_hundred_and_ninety_seven() {
    assert_eq!(outer_size(CONTENT_SIZE), WINDOW_SIZE);
}

#[test]
fn a_device_row_is_numbered_from_one() {
    let device = DevicePriority {
        id: "id".into(),
        name: "Speakers (Realtek)".into(),
        preset: None,
        connected: true,
        present: true,
    };
    assert_eq!(device.label(0), "1. Speakers (Realtek)");
    assert_eq!(device.label(9), "10. Speakers (Realtek)");
}

#[test]
fn the_five_hotkey_commands_are_the_originals_five_in_order() {
    let expected = [
        ("Turn FxSound On/Off", "cmd_on_off", "Ctrl+Shift+Q"),
        ("Open/Close FxSound", "cmd_open_close", "Ctrl+Shift+E"),
        ("Use Next Preset", "cmd_next_preset", "Ctrl+Shift+A"),
        ("Use Previous Preset", "cmd_previous_preset", "Ctrl+Shift+Z"),
        ("Change Playback Device", "cmd_change_output", "Ctrl+Shift+W"),
    ];
    let settings = Settings::default();
    for (command, (label, key, chord)) in HotkeyCommand::ALL.into_iter().zip(expected) {
        assert_eq!(command.label(), label);
        assert_eq!(command.settings_key(), key);
        assert_eq!(command.binding(&settings), chord);
        assert!(
            command.command_line().starts_with("fxsound --"),
            "{:?} offers {}",
            command,
            command.command_line()
        );
    }
}

#[test]
fn the_language_switch_starts_with_the_system_entry_and_then_the_originals_list() {
    let all = LanguageChoice::all();
    assert_eq!(all[0], LanguageChoice::System);
    assert_eq!(all.len(), 1 + LANGUAGE_COUNT);
    assert_eq!(all.len(), CHOICE_COUNT);
    assert_eq!(all[1], LanguageChoice::Code("en"));
    assert_eq!(all[all.len() - 1], LanguageChoice::Code("zh-TW"));
    assert!(!all.contains(&LanguageChoice::Code("hu")));
}

#[test]
fn the_language_switch_wraps_in_both_directions() {
    assert_eq!(LanguageChoice::System.step(-1), LanguageChoice::Code("zh-TW"));
    assert_eq!(LanguageChoice::Code("zh-TW").step(1), LanguageChoice::System);
    assert_eq!(LanguageChoice::System.step(1), LanguageChoice::Code("en"));
    assert_eq!(LanguageChoice::Code("en").step(1), LanguageChoice::Code("ar"));
}

#[test]
fn stepping_there_and_back_or_a_whole_turn_changes_nothing() {
    for choice in LanguageChoice::all() {
        for steps in [-61_isize, -30, -1, 0, 1, 7, 30, 59] {
            assert_eq!(choice.step(steps).step(-steps), choice);
        }
        assert_eq!(choice.step(CHOICE_COUNT as isize), choice);
    }
    // The extreme step counts wrap like any other: -2^63 is 22 modulo 30.
    assert_eq!(LanguageChoice::System.step(isize::MIN), LanguageChoice::all()[(i128::from(i64::MIN).rem_euclid(30)) as usize]);
}

#[test]
fn the_current_choice_follows_the_settings_and_falls_back_to_the_system() {
    let mut settings = Settings::default();
    assert_eq!(LanguageChoice::current(&settings), LanguageChoice::System);
    settings.choose_language(Some("ru"));
    assert_eq!(LanguageChoice::current(&settings), LanguageChoice::Code("ru"));
    assert_eq!(LanguageChoice::Code("ru").setting().as_deref(), Some("ru"));
    assert_eq!(LanguageChoice::System.setting(), None);
    settings.choose_language(Some("hu"));
    assert_eq!(LanguageChoice::current(&settings), LanguageChoice::System);
}

#[test]
fn every_choice_is_what_its_own_setting_selects() {
    for choice in LanguageChoice::all() {
        let mut settings = Settings::default();
        let stored = choice.setting();
        settings.choose_language(stored.as_deref());
        assert_eq!(LanguageChoice::current(&settings), choice);
    }
}

#[test]
fn the_switch_shows_native_names_and_names_the_system_language() {
    assert_eq!(LanguageChoice::Code("pt").label("en"), "Português");
    assert_eq!(LanguageChoice::Code("pt-br").label("en"), "português brasileiro");
    assert_eq!(
        LanguageChoice::System.label("de"),
        "System language · Deutsch"
    );
    assert_eq!(LanguageChoice::System.label("xx"), "System language · English");
    assert_eq!(native_name("ja"), "日本語");
    assert!(language("hu").is_none());
}

#[test]
fn the_version_string_is_not_translated_and_carries_its_v() {
    let state = SettingsState {
        version: "1.1.25".into(),
        ..SettingsState::default()
    };
    assert_eq!(state.version_text(), "v1.1.25");
}

#[test]
fn the_defaults_match_the_persistence_table() {
    let settings = Settings::default();
    assert!(!settings.prioritize_new_output);
    assert!(!settings.hide_help_tooltips);
    assert!(!settings.hide_notifications);
    assert_eq!(settings.language, "en");
    assert!(settings.language_follows_system);
    assert_eq!(settings.max_user_presets, 120);
    assert_eq!(settings.device_configs_version, 2);
}

#[test]
fn a_row_can_only_move_where_there_is_room() {
    let state = populated();
    assert!(!state.can_move_up(0));
    assert!(state.can_move_down(0));
    assert!(state.can_move_up(1));
    assert!(!state.can_move_down(1));
    assert!(!state.can_move_up(9));
    assert!(!state.can_move_down(9));
    assert!(!state.can_move_down(usize::MAX));
}

#[test]
fn the_tabs_have_their_captions_titles_and_icons() {
    assert_eq!(SettingsTab::ALL, [SettingsTab::Audio, SettingsTab::General, SettingsTab::Help]);
    assert_eq!(SettingsTab::default(), SettingsTab::Audio);
    assert_eq!(SettingsTab::General.nav_label(), "General");
    assert_eq!(SettingsTab::General.pane_title(), "General Preferences");
    assert_eq!(SettingsTab::Help.icon(), NavIcon::Question);
    assert_eq!(SettingsTab::Audio.icon().file_name(), "speaker.svg");
    for (row, tab) in SettingsTab::ALL.into_iter().enumerate() {
        assert_eq!(tab.index(), row);
    }
}

#[test]
fn every_pane_asks_for_nothing_on_its_own() {
    let mut state = populated();
    for tab in SettingsTab::ALL {
        state.tab = tab;
        let events = SettingsEvents {
            rows: vec![DeviceRowEvents::default(); 2],
            ..SettingsEvents::default()
        };
        assert!(SettingsDialog::new(&state).actions(&events).is_empty(), "{tab:?}");
    }
}

#[test]
fn the_cross_and_escape_close_the_window_before_anything_else() {
    let state = populated();
    let events = SettingsEvents {
        close_clicked: true,
        escape_pressed: true,
        tab_clicked: Some(SettingsTab::Help),
        ..SettingsEvents::default()
    };
    assert_eq!(
        SettingsDialog::new(&state).actions(&events).actions,
        vec![
            SettingsAction::Close,
            SettingsAction::Close,
            SettingsAction::SelectTab(SettingsTab::Help)
        ]
    );
}

#[test]
fn a_device_row_only_offers_the_buttons_it_draws() {
    let state = populated();
    let everything = DeviceRowEvents {
        clicked: true,
        up_clicked: true,
        down_clicked: true,
        remove_clicked: true,
        preset_picked: Some(2),
    };
    let events = SettingsEvents {
        rows: vec![everything, everything],
        ..SettingsEvents::default()
    };
    assert_eq!(
        SettingsDialog::new(&state).actions(&events).actions,
        vec![
            SettingsAction::SelectDeviceRow(0),
            SettingsAction::MoveDeviceDown(0),
            SettingsAction::SetDevicePreset { device: 0, preset: 2 },
            SettingsAction::SelectDeviceRow(1),
            SettingsAction::MoveDeviceUp(1),
            SettingsAction::RemoveDevice(1),
            SettingsAction::SetDevicePreset { device: 1, preset: 2 },
        ]
    );
}

#[test]
fn the_keyboard_moves_the_selected_row_only_where_there_is_room() {
    let mut state = populated();
    let both = SettingsEvents {
        shift_up: true,
        shift_down: true,
        ..SettingsEvents::default()
    };
    assert_eq!(
        SettingsDialog::new(&state).actions(&both).actions,
        vec![SettingsAction::MoveDeviceDown(0)]
    );
    state.selected_device = Some(1);
    assert_eq!(
        SettingsDialog::new(&state).actions(&both).actions,
        vec![SettingsAction::MoveDeviceUp(1)]
    );
    state.selected_device = None;
    assert!(SettingsDialog::new(&state).actions(&both).is_empty());
}

#[test]
fn the_reset_button_answers_only_while_there_is_something_to_reset() {
    let mut state = populated();
    let events = SettingsEvents {
        reset_clicked: true,
        prioritize_clicked: true,
        ..SettingsEvents::default()
    };
    assert_eq!(
        SettingsDialog::new(&state).actions(&events).actions,
        vec![SettingsAction::SetPrioritizeNewOutput(true), SettingsAction::ResetPresets]
    );
    state.can_reset_presets = false;
    assert_eq!(
        SettingsDialog::new(&state).actions(&events).actions,
        vec![SettingsAction::SetPrioritizeNewOutput(true)]
    );
}

#[test]
fn the_general_pane_asks_for_the_opposite_of_what_it_shows() {
    let mut state = populated();
    state.tab = SettingsTab::General;
    state.launch_on_startup = true;
    let events = SettingsEvents {
        language_next: true,
        launch_clicked: true,
        help_tips_clicked: true,
        notifications_clicked: true,
        hotkey_example_clicked: true,
        ..SettingsEvents::default()
    };
    assert_eq!(
        SettingsDialog::new(&state).actions(&events).actions,
        vec![
            SettingsAction::SetLanguage(Some("en".into())),
            SettingsAction::SetLaunchOnStartup(false),
            SettingsAction::SetHideHelpTips(true),
            SettingsAction::SetHideNotifications(true),
            SettingsAction::ShowHotkeyExample,
        ]
    );
    let back = SettingsEvents {
        language_prev: true,
        language_next: true,
        ..SettingsEvents::default()
    };
    assert_eq!(
        SettingsDialog::new(&state).actions(&back).actions,
        vec![SettingsAction::SetLanguage(Some("zh-TW".into()))]
    );
    state.settings.choose_language(Some("en"));
    let back_to_system = SettingsEvents {
        language_prev: true,
        ..SettingsEvents::default()
    };
    assert_eq!(
        SettingsDialog::new(&state).actions(&back_to_system).actions,
        vec![SettingsAction::SetLanguage(None)]
    );
}

#[test]
fn the_help_pane_opens_the_changelog() {
    let mut state = populated();
    state.tab = SettingsTab::Help;
    let events = SettingsEvents {
        changelog_clicked: true,
        reset_clicked: true,
        ..SettingsEvents::default()
    };
    assert_eq!(
        SettingsDialog::new(&state).actions(&events).actions,
        vec![SettingsAction::ShowChangelog]
    );
}

#[test]
fn a_device_is_only_given_a_listed_preset() {
    let state = populated();
    let pick = |preset| DeviceRowEvents {
        clicked: false,
        up_clicked: false,
        down_clicked: false,
        remove_clicked: false,
        preset_picked: Some(preset),
    };
    let events = SettingsEvents {
        rows: vec![pick(3), pick(0)],
        ..SettingsEvents::default()
    };
    // Three presets are listed: index 3 is past the list and is dropped.
    assert_eq!(
        SettingsDialog::new(&state).actions(&events).actions,
        vec![SettingsAction::SetDevicePreset { device: 1, preset: 0 }]
    );
}
