use fxsound_ui::assets::{svg_file, tinted, FxImage, NUM_IMAGES};
use fxsound_ui::layout::{self, lite, pro, Chrome, Rect};
use fxsound_ui::model::{AudioDevice, DeviceDirection, ThemeMode, ViewMode};
use fxsound_ui::state::{PresetEntry, UiAction, UiResponse, UiState};
use fxsound_ui::theme::{FxColor, Palette, Rgba, DARK, LIGHT, NUM_COLORS};
use fxsound_ui::views::{at, bar_rect, divider_rect, effects, lite as lite_view, window_rect};
use fxsound_ui::views::{chrome, preset_items, device_sections, first_user_preset, flip_images, title_bar, DeviceSections, TitleBarEvents};
use fxsound_ui::widgets::combo::{
    arrow_box, drawn_headers, font_size, outline_colour, popup_row_height, popup_rows, popup_separator_height, preset_label,
    text_box, text_colour, PopupRow, SectionHeader, FONT, MODIFIED_SUFFIX, NARROW_ARROW_MARGIN, ARROW_MARGIN, SMALL_FONT,
};
use fxsound_ui::widgets::equalizer::controls::{self, band_count_label};
use fxsound_ui::widgets::equalizer::interaction::EqInteraction;
use fxsound_ui::widgets::equalizer::{
    band_tooltip, controls_rect, dash_spans, desaturate, is_band_count, side_control_actions, EqLayout, SideControlEvents, BAND_COUNTS, BAND_TOOLTIPS, DASH_ON,
    PANEL_SIZE, X_MARGIN,
};
use fxsound_ui::widgets::slider::Fidelity;

#[test]
fn pro_window_height_is_the_sum_of_its_parts() {
    let sum = layout::TITLE_BAR_HEIGHT + layout::TITLE_BAR_DIVIDER_HEIGHT + pro::CONTENT_HEIGHT + 20;
    assert_eq!(sum, pro::WINDOW_SIZE.1);
}

#[test]
fn lite_window_height_is_the_sum_of_its_parts() {
    let sum = layout::TITLE_BAR_HEIGHT + layout::TITLE_BAR_DIVIDER_HEIGHT + lite::CONTENT_HEIGHT + 20;
    assert_eq!(sum, lite::WINDOW_SIZE.1);
}

#[test]
fn lite_width_matches_the_constexpr_formula() {
    let background_width = lite::LIST_SIZE.0 * 2 + 20 * 3;
    assert_eq!(background_width + 40, lite::CONTENT_WIDTH);
}

#[test]
fn the_two_combos_sit_side_by_side_inside_the_panel() {
    let panel = pro::panel();
    assert!(panel.contains_rect(&pro::preset_combo()));
    assert!(panel.contains_rect(&pro::output_combo()));
    let preset = pro::preset_combo();
    assert_eq!(pro::output_combo().x - (preset.x + preset.w), 20);
}

#[test]
fn the_equalizer_sits_16px_right_of_the_sliders() {
    let sliders = pro::audio_controls();
    assert_eq!(pro::equalizer().x - (sliders.x + sliders.w), 16);
    assert_eq!((pro::equalizer().w, pro::equalizer().h), (776, 257));
}

#[test]
fn every_pro_child_fits_inside_the_window() {
    let window = Rect::new(0, 0, pro::WINDOW_SIZE.0, pro::WINDOW_SIZE.1);
    for r in [
        pro::panel(),
        pro::preset_combo(),
        pro::output_combo(),
        pro::visualizer(),
        pro::audio_controls(),
        pro::equalizer(),
        pro::notification(),
    ] {
        assert!(window.contains_rect(&r), "{r:?} escapes the window");
    }
}

#[test]
fn chrome_buttons_stay_inside_their_title_bars() {
    for (view, width) in [(ViewMode::Pro, pro::WINDOW_SIZE.0), (ViewMode::Lite, lite::WINDOW_SIZE.0)] {
        for b in Chrome::of(view).buttons() {
            let r = b.rect();
            assert!(r.x + r.w <= width, "{b:?} overflows width {width}");
            assert!(r.y + r.h <= layout::TITLE_BAR_HEIGHT, "{b:?} overflows the bar");
        }
    }
    assert_eq!(layout::window_size(ViewMode::Pro), (1040, 588));
    assert_eq!(layout::window_size(ViewMode::Lite), (550, 189));
}

#[test]
fn both_palettes_are_complete() {
    assert_eq!(DARK.len(), NUM_COLORS);
    assert_eq!(LIGHT.len(), NUM_COLORS);
}

#[test]
fn transcription_spot_checks_match_fxtheme_cpp() {
    let dark = Palette::new(ThemeMode::Dark);
    let light = Palette::new(ThemeMode::Light);
    let rgb = |r, g, b| Rgba { r, g, b, a: 255 };
    assert_eq!(dark.color(FxColor::WindowBackground), rgb(0x18, 0x18, 0x18));
    assert_eq!(light.color(FxColor::WindowBackground), rgb(0xf5, 0xf5, 0xf5));
    assert_eq!(dark.color(FxColor::TextButtonBackground), rgb(0xd5, 0x15, 0x35));
    assert_eq!(light.color(FxColor::TextButtonBackground), rgb(0x1a, 0xc1, 0xff));
    assert_eq!(dark.color(FxColor::InvalidTextBorder), light.color(FxColor::InvalidTextBorder));
    assert_eq!(dark.color(FxColor::HintText), light.color(FxColor::HintText));
    assert_eq!(dark.color(FxColor::SelectedRowOutline), rgb(0xe6, 0x34, 0x62));
    assert_eq!(FxColor::SelectedRowOutline.index(), NUM_COLORS - 1);
}

#[test]
fn window_and_widget_background_are_identical_per_theme() {
    for mode in [ThemeMode::Dark, ThemeMode::Light] {
        let p = Palette::new(mode);
        assert_eq!(p.color(FxColor::WindowBackground), p.color(FxColor::WidgetBackground));
        assert_eq!(p.window_background(), p.color(FxColor::WindowBackground));
        assert_eq!(p.mode(), mode);
    }
    assert!(Palette::default().is_dark());
    assert!(!Palette::new(ThemeMode::Light).is_dark());
}

#[test]
fn alpha_helper_preserves_rgb() {
    let p = Palette::default();
    let base = p.color(FxColor::PanelBackground);
    let faded = p.color_with_alpha(FxColor::PanelBackground, 51);
    assert_eq!((faded.r, faded.g, faded.b), (base.r, base.g, base.b));
    assert_eq!(faded.a, 51);
}

#[test]
fn tinting_keeps_the_alpha_channel() {
    let pixels = vec![
        Rgba { r: 10, g: 20, b: 30, a: 0 },
        Rgba { r: 10, g: 20, b: 30, a: 255 },
        Rgba { r: 0, g: 0, b: 0, a: 128 },
    ];
    let out = tinted(&pixels, Rgba { r: 255, g: 0, b: 100, a: 255 });
    assert_eq!(out.len(), pixels.len());
    for (before, after) in pixels.iter().zip(&out) {
        assert_eq!(before.a, after.a);
    }
    assert_eq!(out[0], Rgba { r: 0, g: 0, b: 0, a: 0 });
    assert_eq!(out[1], Rgba { r: 255, g: 0, b: 100, a: 255 });
    assert_eq!(out[2], Rgba { r: 128, g: 0, b: 50, a: 128 });
}

#[test]
fn every_image_has_a_file_in_both_themes() {
    assert_eq!(FxImage::SliderThumbBW.index(), NUM_IMAGES - 1);
    assert_eq!(svg_file(FxImage::PowerOnButton, ThemeMode::Dark), "power_on.svg");
    assert_eq!(svg_file(FxImage::PowerOnButton, ThemeMode::Light), "power_on_blue.svg");
    assert_eq!(
        svg_file(FxImage::RemoveButton, ThemeMode::Dark),
        svg_file(FxImage::RemoveButton, ThemeMode::Light)
    );
    assert_ne!(
        svg_file(FxImage::DefaultLogo, ThemeMode::Dark),
        svg_file(FxImage::DefaultLogo, ThemeMode::Light)
    );
}

fn state_with_presets(count: usize) -> UiState {
    UiState {
        presets: (0..count)
            .map(|i| PresetEntry {
                name: format!("Preset {i}"),
                factory: true,
                modified: false,
            })
            .collect(),
        selected_preset: if count > 0 { Some(0) } else { None },
        ..UiState::default()
    }
}

#[test]
fn the_preset_label_marks_unsaved_changes() {
    let mut state = state_with_presets(2);
    assert_eq!(state.preset_label(), "Preset 0");
    state.presets[0].modified = true;
    assert_eq!(state.preset_label(), "Preset 0*");
}

#[test]
fn an_empty_preset_list_has_no_label_and_no_navigation() {
    let state = state_with_presets(0);
    assert_eq!(state.preset_label(), "");
    assert!(state.preset().is_none());
    assert!(state.next_preset().is_none());
    assert!(state.previous_preset().is_none());
}

#[test]
fn a_single_preset_cannot_be_cycled() {
    let state = state_with_presets(1);
    assert!(state.next_preset().is_none());
    assert!(state.previous_preset().is_none());
}

#[test]
fn preset_navigation_wraps_in_both_directions() {
    let mut state = state_with_presets(3);
    assert_eq!(state.next_preset(), Some(1));
    state.selected_preset = Some(2);
    assert_eq!(state.next_preset(), Some(0));
    assert_eq!(state.previous_preset(), Some(1));
    state.selected_preset = Some(0);
    assert_eq!(state.previous_preset(), Some(2));
    state.selected_preset = None;
    assert_eq!(state.next_preset(), Some(0));
    assert_eq!(state.previous_preset(), Some(2));
}

#[test]
fn next_then_previous_returns_to_every_preset() {
    let mut state = state_with_presets(5);
    for i in 0..5 {
        state.selected_preset = Some(i);
        let next = state.next_preset();
        state.selected_preset = next;
        assert_eq!(state.previous_preset(), Some(i));
    }
}

#[test]
fn a_selection_past_the_list_has_no_preset() {
    let mut state = state_with_presets(2);
    state.selected_preset = Some(5);
    assert!(state.preset().is_none());
    assert_eq!(state.preset_label(), "");
}

#[test]
fn the_power_state_gates_the_controls() {
    let mut state = UiState::default();
    assert!(state.controls_enabled());
    state.power = false;
    assert!(!state.controls_enabled());
}

#[test]
fn the_music_effects_apply_only_to_a_playback_device() {
    let mut state = UiState::default();
    assert!(state.music_effects_apply());
    state.direction = DeviceDirection::Input;
    assert!(!state.music_effects_apply());
    assert!(state.controls_enabled());
}

fn preset(name: &str, factory: bool) -> PresetEntry {
    PresetEntry {
        name: name.to_owned(),
        factory,
        modified: false,
    }
}

fn device(description: &str, direction: DeviceDirection) -> AudioDevice {
    AudioDevice {
        id: 0,
        name: format!("node.{description}"),
        description: description.to_owned(),
        is_default: false,
        direction,
        form_factor: "speaker".into(),
    }
}

#[test]
fn the_separator_marks_the_boundary_between_factory_and_user_presets() {
    let presets = [
        preset("Flat", true),
        preset("Rock", true),
        preset("My Mix", false),
        preset("Late Night", false),
    ];
    assert_eq!(first_user_preset(&presets), Some(2));
}

#[test]
fn a_list_with_no_user_presets_gets_no_separator() {
    let presets = [preset("Flat", true), preset("Rock", true)];
    assert_eq!(first_user_preset(&presets), None);
    assert_eq!(first_user_preset(&[]), None);
}

#[test]
fn a_list_that_opens_with_a_user_preset_gets_no_separator_above_its_first_row() {
    let presets = [preset("My Mix", false), preset("Flat", true)];
    assert_eq!(first_user_preset(&presets), None);
}

#[test]
fn an_empty_device_list_has_no_titles_and_no_rule() {
    assert_eq!(device_sections(&[]), DeviceSections::default());
}

#[test]
fn a_list_of_outputs_alone_is_titled_output_once_and_never_ruled() {
    let devices = [
        device("Built-in Audio", DeviceDirection::Output),
        device("Scarlett 2i2", DeviceDirection::Output),
    ];
    let sections = device_sections(&devices);
    assert_eq!(sections.titles, vec![(0, DeviceDirection::Output)]);
    assert_eq!(sections.separator, None);
}

#[test]
fn a_list_of_inputs_alone_is_titled_input_once_and_never_ruled() {
    let devices = [device("Fifine Microphone", DeviceDirection::Input)];
    let sections = device_sections(&devices);
    assert_eq!(sections.titles, vec![(0, DeviceDirection::Input)]);
    assert_eq!(sections.separator, None);
}

#[test]
fn outputs_then_inputs_get_two_titles_and_one_rule_at_the_change_of_direction() {
    let devices = [
        device("Built-in Audio", DeviceDirection::Output),
        device("Fifine Speakers", DeviceDirection::Output),
        device("Scarlett 2i2", DeviceDirection::Output),
        device("Fifine Microphone", DeviceDirection::Input),
        device("Webcam", DeviceDirection::Input),
    ];
    let sections = device_sections(&devices);
    assert_eq!(
        sections.titles,
        vec![(0, DeviceDirection::Output), (3, DeviceDirection::Input)]
    );
    assert_eq!(sections.separator, Some(3));
    assert_eq!(DeviceDirection::Output.label(), "Output");
    assert_eq!(DeviceDirection::Input.label(), "Input");
}

#[test]
fn the_titles_and_the_rule_leave_the_device_indices_alone() {
    let devices = [
        device("Built-in Audio", DeviceDirection::Output),
        device("Fifine Microphone", DeviceDirection::Input),
        device("Webcam", DeviceDirection::Input),
    ];
    let sections = device_sections(&devices);
    for header in &sections.titles {
        assert_eq!(devices[header.0].direction, header.1);
    }
    assert_eq!(sections.separator, Some(1));
}

#[test]
fn the_flip_glyph_says_shrink_in_pro_and_expand_in_lite() {
    assert_eq!(
        flip_images(ViewMode::Pro),
        (FxImage::MinimizeButton, FxImage::MinimizeButtonHover)
    );
    assert_eq!(
        flip_images(ViewMode::Lite),
        (FxImage::MaximizeButton, FxImage::MaximizeButtonHover)
    );
}

#[test]
fn a_quiet_title_bar_reports_nothing_and_a_drag_is_asked_for_once() {
    let (actions, dragging) = title_bar(false, TitleBarEvents::default());
    assert!(actions.is_empty());
    assert!(!dragging);
    let start = TitleBarEvents {
        drag_started_on_bar: true,
        ..TitleBarEvents::default()
    };
    let (actions, dragging) = title_bar(false, start);
    assert_eq!(actions, vec![UiAction::DragWindow]);
    assert!(dragging);
    let (actions, dragging) = title_bar(dragging, TitleBarEvents::default());
    assert!(actions.is_empty());
    assert!(dragging);
    let stop = TitleBarEvents {
        drag_stopped: true,
        ..TitleBarEvents::default()
    };
    let (_, dragging) = title_bar(dragging, stop);
    assert!(!dragging);
}

#[test]
fn each_chrome_button_reports_its_own_action() {
    let all = TitleBarEvents {
        menu_clicked: true,
        power_clicked: true,
        flip_clicked: true,
        minimize_clicked: true,
        close_clicked: true,
        ..TitleBarEvents::default()
    };
    assert_eq!(
        title_bar(false, all).0,
        vec![
            UiAction::OpenMenu,
            UiAction::TogglePower,
            UiAction::ToggleView,
            UiAction::Minimise,
            UiAction::Close
        ]
    );
}

#[test]
fn a_modified_preset_carries_the_originals_trailing_star() {
    assert_eq!(preset_label("Rock", true), "Rock *");
    assert_eq!(preset_label("Rock", false), "Rock");
    assert!(preset_label("Bass Boost", true).ends_with(" *"));
    assert_eq!(MODIFIED_SUFFIX, " *");
}

#[test]
fn the_outline_is_invisible_until_something_asks_for_it() {
    for mode in [ThemeMode::Dark, ThemeMode::Light] {
        let palette = Palette::new(mode);
        assert_eq!(
            outline_colour(palette, None, false),
            palette.color(FxColor::ComboBoxBackground)
        );
        assert_eq!(
            outline_colour(palette, Some(true), false),
            palette.color(FxColor::SliderTrack)
        );
        assert_eq!(
            outline_colour(palette, Some(false), false),
            palette.color(FxColor::DefaultFill)
        );
        assert_eq!(outline_colour(palette, Some(true), true).a, 51);
        assert_eq!(text_colour(palette, true, true), palette.color(FxColor::HighlightedText));
        assert_eq!(text_colour(palette, false, true), palette.color(FxColor::DefaultText));
    }
}

#[test]
fn a_section_header_keeps_its_row_and_title() {
    let header = SectionHeader::new(3, "Input");
    assert_eq!(header.before, 3);
    assert_eq!(header.label, "Input");
}

#[test]
fn the_band_count_combo_spells_its_items_like_the_original() {
    assert_eq!(band_count_label(5), "5 Bands");
    assert_eq!(band_count_label(31), "31 Bands");
    assert_eq!(BAND_COUNTS, [5, 10, 15, 20, 31]);
}

#[test]
fn a_disabled_colour_is_as_bright_as_its_brightest_channel() {
    let grey = desaturate(Rgba { r: 0xd5, g: 0x15, b: 0x35, a: 0x80 });
    assert_eq!(grey, Rgba { r: 0xd5, g: 0xd5, b: 0xd5, a: 0x80 });
}

#[test]
fn the_slider_is_faithful_by_default() {
    assert_eq!(Fidelity::default(), Fidelity::Faithful);
}

#[test]
fn the_ripple_flows_outwards_from_the_middle() {
    let mut bars = [0, 1, 2, 3, 4, 5, 6, 7, 8, 9];
    fxsound_ui::widgets::visualizer::ripple(&mut bars, 42);
    assert_eq!(bars, [1, 2, 3, 4, 5, 42, 4, 3, 2, 1]);
    fxsound_ui::widgets::visualizer::ripple(&mut bars, 7);
    assert_eq!(bars, [2, 3, 4, 5, 42, 7, 5, 4, 3, 2]);
}

#[test]
fn the_preset_list_greys_out_with_the_power_but_the_device_list_does_not() {
    let mut state = UiState::default();
    let mut response = UiResponse::default();
    state.picker_actions(&mut response, Some(2), Some(1));
    assert_eq!(response.actions, vec![UiAction::SelectPreset(2), UiAction::SelectDevice(1)]);
    state.power = false;
    let mut response = UiResponse::default();
    state.picker_actions(&mut response, Some(2), Some(1));
    assert_eq!(response.actions, vec![UiAction::SelectDevice(1)]);
    let mut quiet = UiResponse::default();
    state.picker_actions(&mut quiet, None, None);
    assert!(quiet.is_empty());
}

#[test]
fn the_selected_device_is_only_found_inside_the_list() {
    let mut state = UiState {
        devices: vec![
            device("Built-in Audio", DeviceDirection::Output),
            device("Webcam", DeviceDirection::Input),
        ],
        ..UiState::default()
    };
    assert!(state.device().is_none());
    state.selected_device = Some(1);
    assert_eq!(state.device().map(|d| d.description.as_str()), Some("Webcam"));
    state.selected_device = Some(2);
    assert!(state.device().is_none());
}

#[test]
fn column_geometry_matches_the_spec_table_for_every_band_count() {
    let expected = [(5_usize, 148, 58, 90), (10, 74, 21, 53), (15, 49, 8, 40), (20, 37, 2, 34), (31, 24, -4, 28)];
    for (bands, width, offset, first_centre) in expected {
        let layout = EqLayout::new(bands);
        assert_eq!(layout.column_width, width, "{bands} bands: column width");
        assert_eq!(layout.fader_x(0) - X_MARGIN, offset, "{bands} bands: fader offset");
        assert_eq!(layout.center_x(0), first_centre, "{bands} bands: first centre");
        assert_eq!(layout.center_x(3), first_centre + width * 3);
    }
}

#[test]
fn the_ten_band_faders_span_53_to_719() {
    let layout = EqLayout::new(10);
    assert_eq!(layout.center_x(0), 53);
    assert_eq!(layout.center_x(9), 719);
}

#[test]
fn the_31_band_faders_overlap_by_eight_points() {
    let layout = EqLayout::new(31);
    let first = layout.fader_rect(0);
    let second = layout.fader_rect(1);
    assert_eq!(first.x + first.w - second.x, 8);
}

#[test]
fn the_usable_travel_is_148_points_with_wheels_and_184_without() {
    let ten = EqLayout::new(10);
    assert!(ten.wheels);
    assert_eq!(ten.slider_height, 180);
    assert_eq!(ten.region_size, 148);
    assert_eq!(ten.track_top(), 32);
    assert_eq!(ten.track_bottom(), 180);
    assert_eq!(ten.freq_label_size(), 12);
    let twenty = EqLayout::new(20);
    assert!(!twenty.wheels);
    assert_eq!(twenty.slider_height, 216);
    assert_eq!(twenty.region_size, 184);
    assert_eq!(twenty.track_bottom(), 216);
    assert_eq!(twenty.freq_label_size(), 10);
    assert_eq!(twenty.freq_label_rect(0).h, 24);
    assert_eq!(EqLayout::new(0).column_width, 0);
}

#[test]
fn every_band_stays_inside_the_panel_for_every_offered_band_count() {
    for bands in BAND_COUNTS {
        let layout = EqLayout::new(bands);
        for band in 0..bands {
            let fader = layout.fader_rect(band);
            assert!(fader.y >= 0 && fader.y + fader.h <= PANEL_SIZE.1);
            let label = layout.freq_label_rect(band);
            assert!(label.x >= 0 && label.x + label.w <= PANEL_SIZE.0);
            assert!(label.y + label.h <= PANEL_SIZE.1);
        }
    }
}

fn pro_combo() -> Rect {
    Rect::new(40, 32, 470, 40)
}

fn band_combo() -> Rect {
    Rect::new(8, 28, 152, 20)
}

#[test]
fn the_font_drops_to_fourteen_points_at_thirty_and_not_at_thirty_one() {
    assert_eq!(font_size(20), SMALL_FONT);
    assert_eq!(font_size(30), SMALL_FONT);
    assert_eq!(font_size(31), FONT);
    assert_eq!(font_size(40), FONT);
    assert_eq!(font_size(50), FONT);
}

#[test]
fn the_arrow_box_matches_the_specs_geometry_table() {
    let arrow = arrow_box(pro_combo());
    assert_eq!(arrow.x, 40 + 438);
    assert_eq!(arrow.w, 12);
    assert_eq!(arrow.h, 40);
    let arrow = arrow_box(band_combo());
    assert_eq!(arrow.x, 8 + 120);
    assert_eq!(arrow.h, 20);
}

#[test]
fn a_combo_narrower_than_the_threshold_pulls_its_arrow_in_by_eight() {
    let narrow = Rect::new(0, 0, 150, 20);
    assert_eq!(arrow_box(narrow).x, 150 - NARROW_ARROW_MARGIN);
    let wide = Rect::new(0, 0, 151, 20);
    assert_eq!(arrow_box(wide).x, 151 - ARROW_MARGIN);
}

#[test]
fn the_text_box_stops_thirty_seven_points_short_of_the_right_edge() {
    let text = text_box(pro_combo());
    assert_eq!(text.x, 40 + 5);
    assert_eq!(text.w, 428);
    assert_eq!(text.y, 32 + 1);
    assert_eq!(text.h, 38);
    let text = text_box(band_combo());
    assert_eq!(text.w, 110);
    assert_eq!(text.h, 18);
}

#[test]
fn the_text_never_reaches_under_the_arrow() {
    for rect in [pro_combo(), band_combo()] {
        let text = text_box(rect);
        assert!(text.x + text.w <= arrow_box(rect).x, "{rect:?}");
    }
}

#[test]
fn a_popup_row_is_as_tall_as_the_closed_boxs_text_area() {
    assert_eq!(popup_row_height(40), 38);
    assert_eq!(popup_row_height(50), 48);
    assert_eq!(popup_row_height(20), 18);
    assert_eq!(popup_row_height(40), text_box(pro_combo()).h);
    assert_eq!(popup_row_height(2), 1);
}

#[test]
fn a_separator_is_a_tenth_of_a_row_and_never_thinner_than_a_point() {
    assert_eq!(popup_separator_height(38), 3);
    assert_eq!(popup_separator_height(48), 4);
    assert_eq!(popup_separator_height(18), 1);
    assert_eq!(popup_separator_height(5), 1);
}

#[test]
fn the_menu_puts_the_rule_before_the_titles_and_keeps_every_item_index() {
    let headers = [SectionHeader::new(0, "Output"), SectionHeader::new(2, "Input")];
    let rows = popup_rows(3, Some(2), Some(2), &headers);
    assert_eq!(
        rows,
        vec![
            PopupRow::Header(0),
            PopupRow::Item(0, false),
            PopupRow::Item(1, false),
            PopupRow::Separator,
            PopupRow::Header(1),
            PopupRow::Item(2, true),
        ]
    );
    let items: Vec<usize> = rows
        .iter()
        .filter_map(|row| match row {
            PopupRow::Item(i, _) => Some(*i),
            _ => None,
        })
        .collect();
    assert_eq!(items, vec![0, 1, 2]);
}

#[test]
fn a_title_or_rule_past_the_end_of_the_list_is_not_drawn() {
    let headers = [SectionHeader::new(0, "Output"), SectionHeader::new(5, "Input")];
    let rows = popup_rows(2, None, Some(2), &headers);
    assert_eq!(rows, vec![PopupRow::Header(0), PopupRow::Item(0, false), PopupRow::Item(1, false)]);
    assert_eq!(drawn_headers(&headers, 2), vec![0]);
    assert_eq!(drawn_headers(&headers, 6), vec![0, 1]);
    assert!(popup_rows(0, Some(0), Some(0), &headers).is_empty());
}

#[test]
fn the_side_controls_land_on_the_original_offsets() {
    let panel = Rect::new(0, 0, 168, 257);
    assert_eq!(controls::band_combo(panel), Rect::new(8, 28, 152, 20));
    assert_eq!(controls::filter_q_caption(panel), Rect::new(16, 138, 160, 14));
    assert_eq!(controls::filter_q_slider(panel), Rect::new(8, 153, 160, 18));
    assert_eq!(controls::restore_defaults(panel), Rect::new(8, 234, 18, 18));
    let bypass = controls::bypass(panel);
    assert!(bypass.x + bypass.w < 145);
    assert_eq!(controls::bypass_caption(panel), Rect::new(50, 5, 80, 18));
}

#[test]
fn the_side_controls_follow_their_column() {
    let panel = Rect::new(40, 285, 168, 257);
    assert_eq!(controls::band_combo(panel), Rect::new(48, 313, 152, 20));
    assert_eq!(controls::restore_defaults(panel), Rect::new(48, 519, 18, 18));
}

#[test]
fn the_controls_column_sits_where_fxproview_puts_it() {
    assert_eq!(controls_rect(pro::equalizer()), pro::audio_controls());
}

#[test]
fn every_band_has_a_tooltip_at_the_default_band_count() {
    assert_eq!(BAND_TOOLTIPS.len(), 10);
    assert!(BAND_TOOLTIPS.iter().all(|tip| !tip.is_empty()));
}

#[test]
fn only_the_ten_band_layout_carries_band_tooltips() {
    assert_eq!(band_tooltip(10, 0, false), Some(BAND_TOOLTIPS[0]));
    assert_eq!(band_tooltip(10, 9, false), Some(BAND_TOOLTIPS[9]));
    assert_eq!(band_tooltip(10, 10, false), None);
    assert_eq!(band_tooltip(10, 3, true), None);
    assert_eq!(band_tooltip(5, 0, false), None);
    assert_eq!(band_tooltip(31, 0, false), None);
}

#[test]
fn the_side_controls_ask_for_their_actions_in_order_and_only_while_powered() {
    let events = SideControlEvents { bypass_clicked: true, band_count_picked: Some(15), restore_clicked: true };
    let state = UiState::default();
    assert_eq!(
        side_control_actions(&state, &events),
        vec![UiAction::SetEqEnabled(false), UiAction::SetBandCount(15), UiAction::RestoreDefaults]
    );
    let off = UiState { power: false, eq_on: false, ..UiState::default() };
    assert_eq!(side_control_actions(&off, &events), vec![UiAction::SetBandCount(15)]);
    let quiet = SideControlEvents { bypass_clicked: false, band_count_picked: None, restore_clicked: false };
    assert!(side_control_actions(&state, &quiet).is_empty());
    let bypassed = UiState { eq_on: false, ..UiState::default() };
    let flip = SideControlEvents { bypass_clicked: true, band_count_picked: None, restore_clicked: false };
    assert_eq!(side_control_actions(&bypassed, &flip), vec![UiAction::SetEqEnabled(true)]);
}

#[test]
fn only_an_offered_band_count_is_asked_for() {
    let state = UiState::default();
    for count in BAND_COUNTS {
        let events = SideControlEvents { bypass_clicked: false, band_count_picked: Some(count), restore_clicked: false };
        assert_eq!(side_control_actions(&state, &events), vec![UiAction::SetBandCount(count)]);
    }
    for count in [0, 7, 30, 32] {
        let events = SideControlEvents { bypass_clicked: true, band_count_picked: Some(count), restore_clicked: false };
        assert_eq!(side_control_actions(&state, &events), vec![UiAction::SetEqEnabled(false)]);
    }
    assert!(is_band_count(31) && !is_band_count(16));
}

#[test]
fn the_five_rows_land_on_the_specs_resolved_grid() {
    let column = pro::audio_controls();
    for (index, caption_y) in [21, 64, 107, 150, 193].into_iter().enumerate() {
        let caption = effects::caption_rect(column, index);
        assert_eq!(caption.x, column.x + 16, "{caption:?}");
        assert_eq!(caption.y, column.y + caption_y, "{caption:?}");
        assert_eq!((caption.w, caption.h), (160, 14));
        let slider = effects::slider_rect(column, index);
        assert_eq!(slider.x, column.x + 8, "{slider:?}");
        assert_eq!(slider.y, column.y + caption_y + 15, "{slider:?}");
        assert_eq!((slider.w, slider.h), (160, 18));
    }
}

#[test]
fn the_last_slider_leaves_thirty_one_points_at_the_bottom_of_the_column() {
    let column = pro::audio_controls();
    let last = effects::slider_rect(column, effects::EFFECT_ROWS - 1);
    assert_eq!(last.y + last.h, column.y + 226);
    assert_eq!(column.y + column.h - (last.y + last.h), 31);
}

#[test]
fn the_slider_runs_flush_to_the_columns_right_edge_and_the_caption_overhangs_it() {
    let column = pro::audio_controls();
    let slider = effects::slider_rect(column, 0);
    assert_eq!(slider.x + slider.w, column.x + column.w);
    let caption = effects::caption_rect(column, 0);
    assert_eq!(caption.x + caption.w - (column.x + column.w), 8);
}

#[test]
fn the_row_pitch_is_the_sum_of_the_parts_the_original_adds_up() {
    assert_eq!(effects::ROW_PITCH, 43);
    assert_eq!(effects::CAPTION_HEIGHT + effects::CAPTION_GAP + effects::SLIDER_SIZE.1 + effects::ROW_GAP, 43);
    let column = pro::audio_controls();
    assert_eq!(effects::row_top(column, 1) - effects::row_top(column, 0), 43);
}

#[test]
fn every_effect_row_stays_inside_the_panel_behind_it() {
    let panel = pro::panel();
    let column = pro::audio_controls();
    for index in 0..effects::EFFECT_ROWS {
        assert!(panel.contains_rect(&effects::slider_rect(column, index)), "row {index} escaped the panel");
    }
}

#[test]
fn each_view_takes_its_own_chrome_and_they_differ_on_the_right_hand_buttons() {
    assert_eq!(chrome(ViewMode::Pro), Chrome::of(ViewMode::Pro));
    assert_eq!(chrome(ViewMode::Lite), Chrome::of(ViewMode::Lite));
    assert_eq!(chrome(ViewMode::Pro).logo, chrome(ViewMode::Lite).logo);
    assert_eq!(chrome(ViewMode::Pro).flip.size.0, 26);
    assert_eq!(chrome(ViewMode::Lite).flip.size.0, 24);
}

#[test]
fn the_preset_items_carry_the_modified_marker() {
    let presets = vec![
        PresetEntry { name: "Flat".to_owned(), factory: true, modified: false },
        PresetEntry { name: "My Mix".to_owned(), factory: false, modified: true },
    ];
    assert_eq!(preset_items(&presets), vec!["Flat".to_owned(), "My Mix *".to_owned()]);
    assert!(preset_items(&[]).is_empty());
}

#[test]
fn a_response_knows_which_actions_it_holds() {
    let mut response = UiResponse::default();
    assert!(response.is_empty());
    assert!(!response.contains(&UiAction::TogglePower));
    response.push(UiAction::TogglePower);
    response.push(UiAction::SavePresetAs("Road Trip".to_owned()));
    assert!(response.contains(&UiAction::TogglePower));
    assert!(response.contains(&UiAction::SavePresetAs("Road Trip".to_owned())));
    assert!(!response.contains(&UiAction::SavePresetAs("Road".to_owned())));
    assert!(!response.contains(&UiAction::SelectPreset(0)));
    assert_eq!(response.actions.len(), 2);
}

#[test]
fn each_view_mode_names_the_window_size_the_spec_tabulates() {
    assert_eq!(layout::window_size(ViewMode::Pro), (1040, 588));
    assert_eq!(layout::window_size(ViewMode::Lite), (550, 189));
}

#[test]
fn a_window_rect_starts_where_its_ui_starts() {
    let rect = window_rect((12, 34), ViewMode::Lite);
    assert_eq!((rect.x, rect.y), (12, 34));
    assert_eq!(rect.x + rect.w, 12 + 550);
    assert_eq!(rect.y + rect.h, 34 + 189);
}

#[test]
fn translating_by_the_origin_leaves_a_window_at_zero_untouched() {
    let panel = pro::panel();
    assert_eq!(at((0, 0), panel), panel);
    let shifted = at((5, -3), panel);
    assert_eq!((shifted.x, shifted.y), (panel.x + 5, panel.y - 3));
    assert_eq!((shifted.w, shifted.h), (panel.w, panel.h));
}

#[test]
fn the_panel_is_the_one_the_spec_tabulates() {
    assert_eq!(lite_view::panel((0, 0)), Rect::new(20, 79, 510, 90));
}

#[test]
fn the_panel_frames_the_combos_with_twenty_points_on_every_side() {
    let panel = lite_view::panel((0, 0));
    let preset = lite::preset_combo();
    let output = lite::output_combo();
    assert!(panel.contains_rect(&preset));
    assert!(panel.contains_rect(&output));
    assert_eq!(preset.y - panel.y, lite_view::PANEL_PADDING);
    assert_eq!(panel.y + panel.h - (preset.y + preset.h), lite_view::PANEL_PADDING);
    assert_eq!(preset.x - panel.x, lite_view::PANEL_PADDING);
    assert_eq!(panel.x + panel.w - (output.x + output.w), lite_view::PANEL_PADDING);
    assert_eq!(output.x - (preset.x + preset.w), lite_view::PANEL_PADDING);
}

#[test]
fn the_panel_sits_inside_the_window_with_twenty_points_of_margin() {
    let window = window_rect((0, 0), ViewMode::Lite);
    let panel = lite_view::panel((0, 0));
    assert!(window.contains_rect(&panel));
    assert_eq!(panel.x - window.x, 20);
    assert_eq!(window.x + window.w - (panel.x + panel.w), 20);
    assert_eq!(window.y + window.h - (panel.y + panel.h), 20);
}

#[test]
fn the_ripple_mirrors_the_history_with_the_originals_off_by_one() {
    let mut bars = [0.0_f32; fxsound_ui::widgets::visualizer::NUM_BARS];
    for value in [0.1, 0.2, 0.3, 0.4, 0.5, 0.6] {
        fxsound_ui::widgets::visualizer::ripple(&mut bars, value);
    }
    assert_eq!(bars, [0.1, 0.2, 0.3, 0.4, 0.5, 0.6, 0.4, 0.3, 0.2, 0.1]);
}

#[test]
fn ten_ripple_steps_flush_the_whole_history() {
    let mut bars = [0.0_f32; fxsound_ui::widgets::visualizer::NUM_BARS];
    for _ in 0..6 {
        fxsound_ui::widgets::visualizer::ripple(&mut bars, 1.0);
    }
    assert!(bars.iter().all(|&b| b == 1.0));
    for _ in 0..fxsound_ui::widgets::visualizer::NUM_BARS {
        fxsound_ui::widgets::visualizer::ripple(&mut bars, 0.0);
    }
    assert_eq!(bars, [0.0; 10]);
}

#[test]
fn the_bar_is_inset_by_the_corner_radius_and_is_fifty_six_points_tall() {
    let bar = bar_rect((0, 0), 1040);
    assert_eq!((bar.x, bar.y, bar.w, bar.h), (21, 0, 998, 56));
    assert_eq!(bar_rect((0, 0), 550).w, 508);
    assert_eq!(bar_rect((0, 0), 30).w, 0);
}

#[test]
fn the_divider_is_one_point_tall_and_runs_the_whole_window_width() {
    let divider = divider_rect((0, 0), 1040);
    assert_eq!((divider.x, divider.y, divider.w, divider.h), (0, 56, 1040, 1));
    let bar = bar_rect((0, 0), 1040);
    assert_eq!(divider.y, bar.y + bar.h);
}

#[test]
fn the_power_button_sits_where_the_title_bar_puts_it() {
    let pro_power = Chrome::of(ViewMode::Pro).power.rect();
    assert_eq!(pro::WINDOW_SIZE.0 - 21 - (pro_power.x + pro_power.w), 127);
    let lite_power = Chrome::of(ViewMode::Lite).power.rect();
    assert_eq!(lite::WINDOW_SIZE.0 - 21 - (lite_power.x + lite_power.w), 125);
}

#[test]
fn the_lite_combos_set_larger_type_than_the_pro_ones() {
    let lite_combo = lite::preset_combo();
    let pro_combo = pro::preset_combo();
    assert_eq!(font_size(lite_combo.h), FONT);
    assert_eq!(font_size(pro_combo.h), FONT);
    assert_eq!((lite_combo.w, lite_combo.h), (225, 50));
}

#[test]
fn interaction_state_starts_empty_and_clears() {
    let mut interaction = EqInteraction::<f32>::new();
    assert_eq!(interaction.dragged_band(), None);
    assert_eq!(interaction.dragged_wheel(), None);
    assert_eq!(interaction.hovered_band(), None);
    interaction.start_gain_drag(3);
    interaction.start_wheel_drag(3, 0.25);
    assert_eq!(interaction.dragged_band(), Some(3));
    assert_eq!(interaction.dragged_wheel(), Some(3));
    interaction.clear();
    assert_eq!(interaction, EqInteraction::default());
}

#[test]
fn a_drag_left_on_a_band_that_is_gone_is_forgotten_with_the_hover() {
    let mut interaction = EqInteraction::<f32>::new();
    interaction.start_gain_drag(12);
    interaction.set_hovered(Some(4));
    // Fifteen bands still hold band 12: nothing is forgotten.
    interaction.forget_bands_past(15);
    assert_eq!(interaction.dragged_band(), Some(12));
    assert_eq!(interaction.hovered_band(), Some(4));
    // Ten do not: the whole memory goes, hover included.
    interaction.forget_bands_past(10);
    assert_eq!(interaction, EqInteraction::default());

    // A wheel drag is judged the same way, and hands back where it started only on its own band.
    interaction.start_wheel_drag(9, 0.5);
    assert_eq!(interaction.wheel_drag_start(9), Some(0.5));
    assert_eq!(interaction.wheel_drag_start(8), None);
    interaction.forget_bands_past(10);
    assert_eq!(interaction.dragged_wheel(), Some(9));
    interaction.forget_bands_past(9);
    assert_eq!(interaction.dragged_wheel(), None);
}

#[test]
fn a_drag_ends_only_on_the_band_it_started_on() {
    let mut interaction = EqInteraction::<f32>::new();
    interaction.start_gain_drag(2);
    interaction.end_gain_drag(5);
    assert_eq!(interaction.dragged_band(), Some(2));
    interaction.end_gain_drag(2);
    assert_eq!(interaction.dragged_band(), None);
    interaction.start_wheel_drag(1, 0.75);
    interaction.end_wheel_drag(0);
    assert_eq!(interaction.dragged_wheel(), Some(1));
    interaction.end_wheel_drag(1);
    assert_eq!(interaction.dragged_wheel(), None);
}

#[test]
fn the_dashed_track_lays_five_on_two_off_and_clips_the_last_dash() {
    let spans = dash_spans(32, 180);
    assert_eq!(spans[0], (32, 37));
    assert_eq!(spans[1], (39, 44));
    // 148 points of track at a 7 point pitch: 21 full cycles plus a final clipped dash.
    assert_eq!(spans.len(), 22);
    let last = spans[spans.len() - 1];
    assert_eq!(last.0, 32 + 21 * 7);
    assert_eq!(last.1, 180);
    assert!(last.1 - last.0 < DASH_ON);
}

#[test]
fn dash_spans_of_an_empty_track_are_empty() {
    assert!(dash_spans(100, 100).is_empty());
    assert!(dash_spans(100, 10).is_empty());
}

#[test]
fn a_track_that_ends_on_a_gap_keeps_its_last_dash_whole() {
    // 12 points: one dash, its gap, and five points of a second dash that fit exactly.
    assert_eq!(dash_spans(0, 12), vec![(0, 5), (7, 12)]);
    // 7 points: one dash and its gap; no second dash starts.
    assert_eq!(dash_spans(0, 7), vec![(0, 5)]);
    // 1 point: a single clipped dash.
    assert_eq!(dash_spans(-3, -2), vec![(-3, -2)]);
}
