//! The full window.

use vstd::prelude::*;
use super::{BOTTOM_PAD, Rect, TITLE_BAR_DIVIDER_HEIGHT, TITLE_BAR_HEIGHT, bottom, contains, right};

verus! {

/// The content's width.
pub const CONTENT_WIDTH: i32 = 1040;
/// The content's height once the visualizer is shown.
pub const CONTENT_HEIGHT: i32 = 511;
/// Outer window size: content plus title bar, rule and bottom pad.
pub const WINDOW_SIZE: (i32, i32) = (1040, 588);

/// The whole window.
pub open spec fn window() -> Rect {
    Rect { x: 0, y: 0, w: WINDOW_SIZE.0, h: WINDOW_SIZE.1 }
}

/// The rounded panel behind everything.
pub open spec fn panel_rect() -> Rect {
    Rect { x: 20, y: 73, w: 1000, h: 487 }
}

/// The preset picker.
pub open spec fn preset_combo_rect() -> Rect {
    Rect { x: 40, y: 89, w: 470, h: 40 }
}

/// The output-device picker.
pub open spec fn output_combo_rect() -> Rect {
    Rect { x: 530, y: 89, w: 470, h: 40 }
}

/// The spectrum visualizer.
pub open spec fn visualizer_rect() -> Rect {
    Rect { x: 40, y: 149, w: 960, h: 120 }
}

/// The column of effect sliders.
pub open spec fn audio_controls_rect() -> Rect {
    Rect { x: 40, y: 285, w: 168, h: 257 }
}

/// The graphic equalizer, sixteen points right of the sliders.
pub open spec fn equalizer_rect() -> Rect {
    Rect { x: 224, y: 285, w: 776, h: 257 }
}

/// Where the error toast appears when a device fails.
pub open spec fn notification_rect() -> Rect {
    Rect { x: 440, y: 134, w: 560, h: 120 }
}

/// The rounded panel behind everything.
pub fn panel() -> (r: Rect)
    ensures
        r == panel_rect(),
{
    Rect { x: 20, y: 73, w: 1000, h: 487 }
}

/// The preset picker.
pub fn preset_combo() -> (r: Rect)
    ensures
        r == preset_combo_rect(),
{
    Rect { x: 40, y: 89, w: 470, h: 40 }
}

/// The output-device picker.
pub fn output_combo() -> (r: Rect)
    ensures
        r == output_combo_rect(),
{
    Rect { x: 530, y: 89, w: 470, h: 40 }
}

/// The spectrum visualizer.
pub fn visualizer() -> (r: Rect)
    ensures
        r == visualizer_rect(),
{
    Rect { x: 40, y: 149, w: 960, h: 120 }
}

/// The column of effect sliders.
pub fn audio_controls() -> (r: Rect)
    ensures
        r == audio_controls_rect(),
{
    Rect { x: 40, y: 285, w: 168, h: 257 }
}

/// The graphic equalizer.
pub fn equalizer() -> (r: Rect)
    ensures
        r == equalizer_rect(),
{
    Rect { x: 224, y: 285, w: 776, h: 257 }
}

/// Where the error toast appears.
pub fn notification() -> (r: Rect)
    ensures
        r == notification_rect(),
{
    Rect { x: 440, y: 134, w: 560, h: 120 }
}

/// The window's parts fit it: the two pickers sit side by side in the panel with a twenty-point
/// gutter, the equalizer starts sixteen points right of the slider column, and every part lies
/// inside the window.
pub proof fn lemma_pro_parts_fit()
    ensures
        WINDOW_SIZE.1 == TITLE_BAR_HEIGHT + TITLE_BAR_DIVIDER_HEIGHT + CONTENT_HEIGHT + BOTTOM_PAD,
        contains(panel_rect(), preset_combo_rect()),
        contains(panel_rect(), output_combo_rect()),
        output_combo_rect().x - right(preset_combo_rect()) == 20,
        equalizer_rect().x - right(audio_controls_rect()) == 16,
        contains(window(), panel_rect()),
        contains(window(), preset_combo_rect()),
        contains(window(), output_combo_rect()),
        contains(window(), visualizer_rect()),
        contains(window(), audio_controls_rect()),
        contains(window(), equalizer_rect()),
        contains(window(), notification_rect()),
        bottom(panel_rect()) <= WINDOW_SIZE.1,
{
}

} // verus!
