use fxsound_ui::dialogs::message::{self, toast};
use fxsound_ui::dialogs::presets::{export, import, summary};
use fxsound_ui::dialogs::settings::{self, audio, device_row, general, help};
use fxsound_ui::dialogs::{content_rect, content_size, frame_rect, outer_size, title_bar_rect};
use fxsound_ui::layout::Rect;

fn at(origin: (i32, i32), size: (i32, i32)) -> Rect {
    Rect::new(origin.0, origin.1, size.0, size.1)
}

fn local(base: Rect, r: Rect) -> Rect {
    Rect::new(r.x - base.x, r.y - base.y, r.w, r.h)
}

fn right(r: Rect) -> i32 {
    r.x + r.w
}

fn bottom(r: Rect) -> i32 {
    r.y + r.h
}

#[test]
fn the_outer_size_formula_reproduces_every_row_of_the_specs_table() {
    for (content, outer) in [
        ((600, 510), (610, 597)),
        ((400, 400), (410, 487)),
        ((400, 405), (410, 492)),
        ((350, 340), (360, 427)),
        ((450, 142), (460, 229)),
        ((400, 80), (410, 167)),
    ] {
        assert_eq!(outer_size(content), outer, "{content:?}");
    }
}

#[test]
fn the_content_sits_five_points_in_and_sixty_two_points_down() {
    let outer = at((0, 0), outer_size((600, 510)));
    let content = content_rect(outer);
    assert_eq!(content.x, 5);
    assert_eq!(content.y, 62);
    assert_eq!((content.w, content.h), (600, 510));
    assert_eq!(bottom(outer) - bottom(content), 25);
    for size in [(600, 510), (450, 142), (350, 340)] {
        assert_eq!(content_size(outer_size(size)), size);
    }
}

#[test]
fn the_title_bar_is_inset_by_twenty_six_and_bottoms_out_at_sixty_one() {
    let outer = at((0, 0), outer_size((600, 510)));
    let bar = title_bar_rect(outer);
    assert_eq!(bar.x, 26);
    assert_eq!(bar.y, 5);
    assert_eq!(bar.h, 56);
    assert_eq!(bottom(bar), 61);
    assert_eq!(bar.w, 610 - 42 - 10);
}

#[test]
fn the_frame_is_the_window_less_its_shadow_gutter() {
    let frame = frame_rect(at((0, 0), (460, 229)));
    assert_eq!(frame, Rect::new(5, 5, 450, 219));
}

#[test]
fn the_confirmation_box_is_four_hundred_and_sixty_by_two_hundred_and_twenty_nine() {
    assert_eq!(outer_size(message::CONTENT_SIZE), message::WINDOW_SIZE);
    assert_eq!(message::MESSAGE_HEIGHT, (24 + 2) * 2);
}

fn message_content() -> Rect {
    at((5, 62), message::CONTENT_SIZE)
}

#[test]
fn every_widget_lands_where_the_specs_table_says() {
    let content = message_content();
    let text = local(content, message::message_rect(content));
    assert_eq!((text.x, text.y), (20, 20));
    assert_eq!((text.w, text.h), (410, 52));
    let yes = message::yes_rect(content);
    assert_eq!((yes.x_halves - 2 * content.x as i64, yes.y - content.y), (2 * 95, 92));
    assert_eq!((yes.w, yes.h), message::BUTTON_SIZE);
    let no = message::no_rect(content);
    assert_eq!((no.x_halves - 2 * content.x as i64, no.y - content.y), (2 * 235, 92));
    let ok = message::ok_rect(content);
    assert_eq!((ok.x_halves - 2 * content.x as i64, ok.y - content.y), (2 * 165, 92));
}

#[test]
fn the_ok_button_sits_between_the_yes_and_no_buttons() {
    let content = message_content();
    let ok = message::ok_rect(content);
    let no = message::no_rect(content);
    assert!(ok.x_halves > message::yes_rect(content).x_halves);
    assert!(ok.x_halves + 2 * (ok.w as i64) < no.x_halves + 2 * (no.w as i64));
    assert_eq!(ok.x_halves + ok.w as i64, content.x as i64 * 2 + content.w as i64);
}

#[test]
fn an_odd_leftover_centres_on_a_half_point() {
    let content = at((0, 0), (451, 142));
    // 95.5 and 165.5 points in.
    assert_eq!(message::yes_rect(content).x_halves, 191);
    assert_eq!(message::ok_rect(content).x_halves, 331);
    assert_eq!(message::no_rect(content).x_halves, 471);
    let summary = at((0, 0), (351, 330));
    assert_eq!(summary::summary_ok_rect(summary).x_halves, 301);
}

#[test]
fn line_rectangles_step_by_twenty_points_from_thirty() {
    let bounds = at((0, 0), (toast::WIDTH, toast::MAX_HEIGHT));
    for index in 0..toast::MAX_LINES {
        let row = toast::line_rect(bounds, index, true);
        assert_eq!(row.y, index as i32 * 20 + 30);
        assert_eq!(row.h, 20);
        assert_eq!(row.x, toast::AUTOHIDE_X);
        assert_eq!(row.w, toast::WIDTH - 80);
    }
    assert_eq!(toast::line_rect(bounds, 0, false).x, toast::BANNER_X);
}

#[test]
fn every_window_size_follows_the_shared_formula() {
    assert_eq!(outer_size(import::CONTENT_SIZE), import::WINDOW_SIZE);
    assert_eq!(outer_size(summary::CONTENT_SIZE), summary::WINDOW_SIZE);
    assert_eq!(outer_size(export::CONTENT_SIZE), export::WINDOW_SIZE);
    let (shrunk, browser) = (import::CONTENT_SIZE, import::BROWSER_CONTENT_SIZE);
    assert_eq!(outer_size(browser), (410, 487));
    assert!(shrunk.1 < browser.1);
    assert_eq!(shrunk.0, browser.0);
}

#[test]
fn the_import_chooser_keeps_the_originals_label_row_and_right_aligned_button() {
    let content = at((5, 62), import::CONTENT_SIZE);
    let label = local(content, import::label_rect(content));
    assert_eq!((label.x, label.y), (20, 10));
    assert_eq!((label.w, label.h), (360, 20));
    let button = local(content, import::import_rect(content));
    assert_eq!((button.w, button.h), import::BUTTON_SIZE);
    assert_eq!(right(button), 380);
    assert!(bottom(button) <= import::CONTENT_SIZE.1);
    assert!(bottom(import::choose_rect(content)) <= import::path_rect(content).y);
    assert!(bottom(import::path_rect(content)) <= import::import_rect(content).y);
}

#[test]
fn the_summary_lays_out_exactly_as_the_specs_table_says() {
    let content = at((5, 62), summary::CONTENT_SIZE);
    let expect = |r: Rect, min: (i32, i32), size: (i32, i32)| {
        let r = local(content, r);
        assert_eq!((r.x, r.y), min, "{r:?}");
        assert_eq!((r.w, r.h), size, "{r:?}");
    };
    expect(summary::summary_label_rect(content, 0), (20, 10), (310, 20));
    expect(summary::summary_list_rect(content, 0), (20, 40), (310, 100));
    expect(summary::summary_label_rect(content, 1), (20, 150), (310, 20));
    expect(summary::summary_list_rect(content, 1), (20, 180), (310, 100));
    let ok = summary::summary_ok_rect(content);
    assert_eq!((ok.x_halves - 2 * content.x as i64, ok.y - content.y), (2 * 150, 300));
    assert_eq!((ok.w, ok.h), (50, 30));
}

#[test]
fn the_export_window_lays_out_exactly_as_the_specs_table_says() {
    let content = at((5, 62), export::CONTENT_SIZE);
    let expect = |r: Rect, min: (i32, i32), size: (i32, i32)| {
        let r = local(content, r);
        assert_eq!((r.x, r.y), min, "{r:?}");
        assert_eq!((r.w, r.h), size, "{r:?}");
    };
    expect(export::export_label_rect(content), (20, 10), (360, 20));
    expect(export::export_list_rect(content), (20, 40), (360, 310));
    expect(export::progress_rect(content), (0, 360), (400, 2));
    expect(export::export_button_rect(content), (300, 372), (80, 30));
    assert!(export::progress_rect(content).x < export::export_list_rect(content).x);
}

fn settings_content() -> Rect {
    at((5, 62), settings::CONTENT_SIZE)
}

fn wide_pane() -> Rect {
    at((158, 63), (449, 509))
}

#[test]
fn the_three_tab_buttons_land_on_the_originals_rows() {
    let content = settings_content();
    for (index, top) in [(0, 50), (1, 110), (2, 170)] {
        let button = local(content, settings::nav_button_rect(content, index));
        assert_eq!((button.x, button.y), (20, top), "{button:?}");
        assert_eq!((button.w, button.h), (150, 40));
    }
}

#[test]
fn the_pane_is_two_points_narrower_than_the_originals_overhanging_one() {
    let content = settings_content();
    let pane = settings::pane_rect(content);
    assert_eq!(pane.x, content.x + 153);
    assert_eq!(pane.y, content.y + 1);
    assert_eq!(pane.w, 447);
    assert_eq!(right(pane), right(content));
    assert_eq!(pane.h, 509);
    assert_eq!(settings::divider_x(content), pane.x - 1);
}

#[test]
fn the_audio_panes_widgets_match_the_specs_table_when_given_the_originals_pane() {
    let pane = wide_pane();
    let expect = |r: Rect, min: (i32, i32), size: (i32, i32)| {
        let r = local(pane, r);
        assert_eq!((r.x, r.y), min, "{r:?}");
        assert_eq!((r.w, r.h), size, "{r:?}");
    };
    expect(settings::pane_title_rect(pane), (20, 5), (429, 24));
    expect(audio::output_title_rect(pane), (20, 50), (400, 14));
    expect(audio::output_list_rect(pane), (20, 74), (399, 260));
    expect(audio::prioritize_toggle_rect(pane), (20, 344), (399, 30));
    expect(audio::group_rect(pane), (10, 40), (419, 344));
    let row = local(pane, audio::reset_button_rect(pane, (220, 24)));
    assert_eq!((row.x, row.y), (20, 404));
}

#[test]
fn a_device_row_lays_out_like_the_specs_diagram() {
    let row = at((0, 0), (389, 40));
    let middle_up = device_row::up_button_rect(row, 1, 3);
    assert_eq!((middle_up.x, middle_up.y), (5, 11));
    assert_eq!((middle_up.w, middle_up.h), (18, 18));
    assert_eq!(device_row::down_button_rect(row, 1, 3).x, 23);
    assert_eq!(device_row::down_button_rect(row, 0, 3).x, 14);
    assert_eq!(device_row::up_button_rect(row, 2, 3).x, 14);
    let combo = device_row::preset_combo_rect(row);
    assert_eq!(combo.w, 150);
    assert_eq!(combo.y, 2);
    assert_eq!(combo.h, 36);
    let name = device_row::device_name_rect(row);
    assert_eq!(name.x, 46);
    assert_eq!(right(name), combo.x - 5);
}

#[test]
fn the_remove_button_is_a_margin_in_from_the_row_not_four_points_further_left() {
    let row = at((0, 0), (389, 40));
    let remove = device_row::remove_button_rect(row);
    assert_eq!(right(remove), 389 - 2 - 5);
    assert_eq!((remove.w, remove.h), (18, 18));
    assert_eq!(remove.y, 11);
}

#[test]
fn nothing_in_a_device_row_overlaps_anything_else() {
    let row = at((0, 0), (389, 40));
    let name_left = device_row::device_name_rect(row).x;
    for (index, count) in [(0, 3), (1, 3), (2, 3), (0, 1)] {
        let up = if index > 0 { Some(device_row::up_button_rect(row, index, count)) } else { None };
        let down = if index + 1 < count { Some(device_row::down_button_rect(row, index, count)) } else { None };
        if let (Some(up), Some(down)) = (up, down) {
            assert!(right(up) <= down.x, "{up:?} overlaps {down:?}");
        }
        for button in [up, down].into_iter().flatten() {
            assert!(right(button) <= name_left, "{button:?} runs under the device name");
        }
    }
    assert!(right(device_row::device_name_rect(row)) <= device_row::preset_combo_rect(row).x);
    assert!(right(device_row::preset_combo_rect(row)) <= device_row::remove_button_rect(row).x);
}

#[test]
fn the_general_pane_keeps_the_originals_hotkey_column_geometry() {
    let pane = wide_pane();
    let language = local(pane, general::language_rect(pane));
    assert_eq!((language.x, language.y), (20, 50));
    assert_eq!((language.w, language.h), (300, 30));
    for (index, top) in [(0, 100), (1, 150), (2, 190)] {
        let row = local(pane, general::toggle_rect(pane, index));
        assert_eq!((row.x, row.y), (20, top), "{row:?}");
        assert_eq!((row.w, row.h), (429, 30));
    }
    let title = local(pane, general::hotkey_title_rect(pane));
    assert_eq!(title.y, 230);
    assert!(bottom(general::hotkey_note_rect(pane)) <= general::hotkey_row_rect(pane, 0).y);
    let rows: Vec<Rect> = (0..5).map(|i| general::hotkey_row_rect(pane, i)).collect();
    for row in &rows {
        assert_eq!(row.x, pane.x + 45);
        assert_eq!(row.h, 20);
    }
    for pair in rows.windows(2) {
        assert_eq!(pair[1].y - pair[0].y, 30);
    }
    assert!(bottom(general::hotkey_link_rect(pane)) <= bottom(pane));
}

#[test]
fn the_help_pane_matches_the_specs_table() {
    let pane = wide_pane();
    let [version_title, version_text, changelog] = help::help_rows(pane);
    let expect = |r: Rect, min: (i32, i32), size: (i32, i32)| {
        let r = local(pane, r);
        assert_eq!((r.x, r.y), min, "{r:?}");
        assert_eq!((r.w, r.h), size, "{r:?}");
    };
    expect(version_title, (20, 50), (429, 24));
    expect(version_text, (20, 84), (429, 20));
    expect(changelog, (25, 114), (424, 24));
}

#[test]
fn the_reset_label_takes_a_line_per_wrap_up_to_three() {
    // A short label is one 24-point line.
    assert_eq!(audio::reset_button_height(settings::RESET_PRESETS, 10), 24);
    // 400 points of text in a 291-point line is two lines; 1000 points hits the three-line cap.
    assert_eq!(audio::reset_button_height(settings::RESET_PRESETS, 400), 48);
    assert_eq!(audio::reset_button_height(settings::RESET_PRESETS, 1000), 72);
    // A line holds exactly 291 points: one more wraps.
    assert_eq!(audio::reset_button_height(settings::RESET_PRESETS, 291), 24);
    assert_eq!(audio::reset_button_height(settings::RESET_PRESETS, 292), 48);
    // Explicit line breaks count too, still capped at three.
    assert_eq!(audio::reset_button_height("Reset presets to\nfactory defaults", 10), 48);
    assert_eq!(audio::reset_button_height("a\nb\nc\nd\ne", 10), 72);
    // An empty label still takes a line.
    assert_eq!(audio::reset_button_height("", 0), 24);
}
