use fxsound_ui::dialogs::changelog::{blocks, classify, plain, ChangelogAction, ChangelogPane, Line};
use fxsound_ui::dialogs::message::toast;
use fxsound_ui::dialogs::message::{ConfirmChoice, ConfirmStyle, MessageBox, Toast};
use fxsound_ui::dialogs::presets::{
    export, format_string, import, overwrite_choice, overwrite_message, ExportDialog,
    ExportEvents, ExportState, ImportDialog, ImportEvents, ImportState, ImportSummary,
    OverwriteChoice, PresetsAction,
};
use fxsound_ui::dialogs::{content_size, outer_size, DialogChrome, DialogResponse, TextButton};

#[test]
fn markdown_lines_are_classified_and_stripped() {
    assert_eq!(classify("# Changelog"), Line::Heading(1, "Changelog".into()));
    assert_eq!(
        classify("## [0.2.0] — 2026-09-14"),
        Line::Heading(2, "[0.2.0] — 2026-09-14".into())
    );
    assert_eq!(classify("### Added"), Line::Heading(3, "Added".into()));
    assert_eq!(
        classify("- **Input mode.** Pick a `microphone`."),
        Line::Bullet("Input mode. Pick a microphone.".into())
    );
    assert_eq!(
        classify("  continuation of a bullet"),
        Line::Text("continuation of a bullet".into())
    );
    assert_eq!(classify(""), Line::Blank);
    assert_eq!(classify("   "), Line::Blank);
    assert_eq!(classify("#hashtag"), Line::Text("#hashtag".into()));
}

#[test]
fn hard_wrapped_lines_join_their_bullet_or_paragraph() {
    let text = "## Added\n- One thing that is long\n  and continues here.\n- Two.\n\nA paragraph\nwrapped twice\nover.\n";
    assert_eq!(
        blocks(text),
        vec![
            Line::Heading(2, "Added".into()),
            Line::Bullet("One thing that is long and continues here.".into()),
            Line::Bullet("Two.".into()),
            Line::Blank,
            Line::Text("A paragraph wrapped twice over.".into()),
        ]
    );
}

#[test]
fn links_keep_their_label_and_lose_their_url() {
    assert_eq!(
        plain("follows [Keep a Changelog](https://keepachangelog.com/en/1.1.0/); done"),
        "follows Keep a Changelog; done"
    );
    assert_eq!(plain("a [broken link"), "a [broken link");
    assert_eq!(plain("`code` and **bold** and *italic*"), "code and bold and italic");
}

#[test]
fn a_changelog_pane_closes_on_the_cross_and_on_escape() {
    let text = "# Changelog\n\n## [0.2.0]\n\n### Added\n- One thing.\n- Another.\n";
    let pane = ChangelogPane::new(text);
    assert!(pane.actions(false, false).is_empty());
    assert!(pane.actions(false, true).contains(&ChangelogAction::Close));
    assert_eq!(pane.actions(true, true).len(), 2);
    assert_eq!(pane.blocks()[0], Line::Heading(1, "Changelog".into()));
    assert_eq!(pane.blocks().last(), Some(&Line::Bullet("Another.".into())));
}

#[test]
fn a_heading_needs_a_space_after_its_hashes_and_at_most_three_of_them() {
    assert_eq!(classify("#### Deep"), Line::Text("#### Deep".into()));
    assert_eq!(classify("#"), Line::Text("#".into()));
}

#[test]
fn an_empty_link_half_is_the_same_as_no_link_at_all() {
    let toast = Toast::new("Output Disconnected").link("", "https://example.invalid");
    assert!(toast.link_parts().is_none());
    let toast = Toast::new("Output Disconnected").link("steps.", "");
    assert!(toast.link_parts().is_none());
}

#[test]
fn a_toast_with_both_link_halves_keeps_them() {
    let toast = Toast::new("Output Disconnected").link("steps.", "https://example.invalid");
    assert_eq!(toast.link_parts(), Some(("steps.", "https://example.invalid")));
    assert!(toast.autohides());
    assert!(!toast.autohide(false).autohides());
}

#[test]
fn a_toast_shows_at_most_three_lines() {
    let toast = Toast::new("one\ntwo\nthree\nfour");
    assert_eq!(toast.lines(), vec!["one", "two", "three"]);
    assert_eq!(Toast::new("Preset: Rock").lines(), vec!["Preset: Rock"]);
}

#[test]
fn a_message_line_gives_up_three_of_its_twenty_points_to_its_border() {
    assert_eq!(toast::LINE_HEIGHT - toast::LINE_BORDER_TOP - toast::LINE_BORDER_BOTTOM, 17);
}

#[test]
fn the_tallest_toast_holds_three_lines() {
    assert_eq!(
        toast::MAX_LINES as i32 * toast::LINE_HEIGHT + toast::HEIGHT_PADDING,
        toast::MAX_HEIGHT
    );
}

#[test]
fn a_message_box_answers_with_the_button_that_was_clicked() {
    let yes_no = MessageBox::new("Delete?");
    assert_eq!(yes_no.buttons(), ConfirmStyle::YesNo);
    assert_eq!(yes_no.answer(false, true, false, false), Some(ConfirmChoice::Yes));
    assert_eq!(yes_no.answer(false, false, true, false), Some(ConfirmChoice::No));
    assert_eq!(yes_no.answer(true, false, false, false), Some(ConfirmChoice::Dismissed));
    assert_eq!(yes_no.answer(false, false, false, true), None);
    let ok = MessageBox::ok("Done");
    assert_eq!(ok.buttons(), ConfirmStyle::Okay);
    assert_eq!(ok.answer(false, false, false, true), Some(ConfirmChoice::Okay));
    assert_eq!(ok.message(), "Done");
    assert_eq!(
        MessageBox::modal_answer(None, true),
        Some(ConfirmChoice::Dismissed)
    );
    assert_eq!(MessageBox::modal_answer(None, false), None);
}

#[test]
fn a_dialog_response_collects_actions_in_order() {
    let mut response = DialogResponse::default();
    assert!(response.is_empty());
    response.push(1_u8);
    response.push_if(false, 2);
    response.push_if(true, 3);
    assert_eq!(response.actions, vec![1, 3]);
    assert_eq!(response.len(), 2);
    assert!(response.contains(&3));
    assert!(!response.contains(&2));
}

#[test]
fn the_outer_size_adds_the_chrome_and_the_content_size_takes_it_back() {
    assert_eq!(outer_size((600, 510)), (610, 597));
    assert_eq!(content_size((610, 597)), (600, 510));
    assert_eq!(content_size(outer_size((450, 142))), (450, 142));
}

#[test]
fn a_chrome_and_a_button_remember_how_they_were_built() {
    let named = DialogChrome::titled("Settings");
    assert_eq!(named.title(), Some("Settings"));
    assert!(named.has_shadow());
    let plain_chrome = DialogChrome::new().draggable(false).shadow(false);
    assert_eq!(plain_chrome.title(), None);
    assert!(!plain_chrome.has_shadow());
    assert!(!plain_chrome.drag_started(true));
    assert!(DialogChrome::new().drag_started(true));
    let button = TextButton::new("Export").enabled(false);
    assert_eq!(button.label(), "Export");
    assert!(!button.is_enabled());
    assert!(!button.clicked(true));
    assert!(TextButton::new("OK").clicked(true));
}

#[test]
fn an_export_row_is_twenty_six_points_tall() {
    assert_eq!(export::ROW_HEIGHT, 26);
}

#[test]
fn export_is_offered_only_for_a_non_empty_selection_that_is_not_already_running() {
    let mut state = ExportState {
        presets: vec!["Flat".into(), "Rock".into(), "Jazz".into()],
        ..ExportState::default()
    };
    assert!(!state.can_export());
    state.selected.insert(2);
    assert!(state.can_export());
    assert_eq!(state.selected_names(), vec!["Jazz"]);
    state.selected.insert(0);
    assert_eq!(state.selected_names(), vec!["Flat", "Jazz"]);
    state.exporting = true;
    assert!(!state.can_export());
}

#[test]
fn a_selection_that_outruns_the_preset_list_is_ignored_rather_than_panicking() {
    let mut state = ExportState {
        presets: vec!["Flat".into()],
        ..ExportState::default()
    };
    state.selected.insert(7);
    assert!(state.selected_names().is_empty());
}

#[test]
fn the_single_file_prompt_is_still_the_originals_sentence() {
    let one = overwrite_message(&["Rock".to_owned()]);
    assert_eq!(
        one,
        "Preset file Rock already exists in the export path, do you want to overwrite the preset file?"
    );
    let many = overwrite_message(&["Rock".to_owned(), "Jazz".to_owned()]);
    assert!(many.starts_with("2 preset files already exist"), "{many}");
    assert!(overwrite_message(&[]).contains('0'));
}

#[test]
fn format_string_substitutes_once_and_tolerates_a_missing_placeholder() {
    assert_eq!(format_string("Preset %s is deleted.", "Rock"), "Preset Rock is deleted.");
    assert_eq!(format_string("%s and %s", "a"), "a and %s");
    assert_eq!(format_string("no placeholder", "a"), "no placeholder");
}

#[test]
fn the_summary_joins_names_without_the_originals_trailing_blank_line() {
    let summary = ImportSummary {
        imported: vec!["Rock".into(), "Jazz".into()],
        skipped: vec!["Flat".into()],
    };
    assert_eq!(summary.imported_text(), "Rock\nJazz");
    assert!(!summary.imported_text().ends_with('\n'));
    assert_eq!(summary.skipped_text(), "Flat");
    assert_eq!(ImportSummary::default().imported_text(), "");
}

#[test]
fn the_import_window_grows_into_the_summary() {
    let mut state = ImportState::default();
    assert!(!state.is_complete());
    assert!(!state.can_import());
    assert_eq!(ImportDialog::new(&state).window_size(), import::WINDOW_SIZE);
    state.folder = Some("/home/u/Documents/presets".into());
    assert!(state.can_import());
    state.summary = Some(ImportSummary::default());
    assert!(state.is_complete());
}

#[test]
fn import_is_only_asked_for_once_a_folder_is_chosen() {
    let mut state = ImportState::default();
    let click = ImportEvents {
        import_clicked: true,
        ..ImportEvents::default()
    };
    assert!(ImportDialog::new(&state).actions(click).is_empty());
    state.folder = Some("/tmp/presets".into());
    assert_eq!(
        ImportDialog::new(&state).actions(click).actions,
        vec![PresetsAction::Import]
    );
    let escape = ImportEvents {
        escape_pressed: true,
        ..ImportEvents::default()
    };
    assert_eq!(
        ImportDialog::new(&state).actions(escape).actions,
        vec![PresetsAction::CloseImport]
    );
}

#[test]
fn the_overwrite_prompt_maps_each_answer_to_one_choice() {
    assert_eq!(overwrite_choice(ConfirmChoice::Yes), OverwriteChoice::OverwriteAll);
    assert_eq!(overwrite_choice(ConfirmChoice::No), OverwriteChoice::SkipAll);
    assert_eq!(overwrite_choice(ConfirmChoice::Dismissed), OverwriteChoice::Cancel);
}

#[test]
fn export_is_asked_for_only_when_it_is_offered() {
    let mut state = ExportState {
        presets: vec!["Flat".into(), "Rock".into()],
        ..ExportState::default()
    };
    let click = ExportEvents {
        export_clicked: true,
        toggled: Some(1),
        ..ExportEvents::default()
    };
    assert_eq!(
        ExportDialog::new(&state).actions(click).actions,
        vec![PresetsAction::ToggleExport(1)]
    );
    state.selected.insert(1);
    assert_eq!(
        ExportDialog::new(&state).actions(click).actions,
        vec![PresetsAction::ToggleExport(1), PresetsAction::Export]
    );
}

#[test]
fn a_link_label_loses_its_own_markers_too() {
    assert_eq!(plain("see [`code`](u) and [**bold**](v)"), "see code and bold");
    assert_eq!(plain("[*a* [b](c)](d) e"), "a [b](d) e");
}

#[test]
fn a_toggle_past_the_list_is_dropped() {
    let state = ExportState {
        presets: vec!["Flat".into(), "Rock".into()],
        ..ExportState::default()
    };
    let past = ExportEvents { toggled: Some(2), ..ExportEvents::default() };
    assert!(ExportDialog::new(&state).actions(past).actions.is_empty());
    let far = ExportEvents { toggled: Some(99), ..ExportEvents::default() };
    assert!(ExportDialog::new(&state).actions(far).actions.is_empty());
}
