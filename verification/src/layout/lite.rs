//! The compact window.

use vstd::prelude::*;
use super::{BOTTOM_PAD, Rect, TITLE_BAR_DIVIDER_HEIGHT, TITLE_BAR_HEIGHT, contains, right};

verus! {

/// The size of each of the two pickers.
pub const LIST_SIZE: (i32, i32) = (225, 50);
/// Two lists, three twenty-point gaps, and a twenty-point margin each side.
pub const CONTENT_WIDTH: i32 = 550;
/// The list height, forty points around it and twenty-two below.
pub const CONTENT_HEIGHT: i32 = 112;
/// Outer window size.
pub const WINDOW_SIZE: (i32, i32) = (550, 189);

/// The whole window.
pub open spec fn window() -> Rect {
    Rect { x: 0, y: 0, w: WINDOW_SIZE.0, h: WINDOW_SIZE.1 }
}

/// The rounded panel.
pub open spec fn panel_rect() -> Rect {
    Rect { x: 20, y: 73, w: 510, h: 90 }
}

/// The preset picker.
pub open spec fn preset_combo_rect() -> Rect {
    Rect { x: 40, y: 99, w: LIST_SIZE.0, h: LIST_SIZE.1 }
}

/// The output-device picker.
pub open spec fn output_combo_rect() -> Rect {
    Rect { x: 285, y: 99, w: LIST_SIZE.0, h: LIST_SIZE.1 }
}

/// The rounded panel.
pub fn panel() -> (r: Rect)
    ensures
        r == panel_rect(),
{
    Rect { x: 20, y: 73, w: 510, h: 90 }
}

/// The preset picker.
pub fn preset_combo() -> (r: Rect)
    ensures
        r == preset_combo_rect(),
{
    Rect { x: 40, y: 99, w: LIST_SIZE.0, h: LIST_SIZE.1 }
}

/// The output-device picker.
pub fn output_combo() -> (r: Rect)
    ensures
        r == output_combo_rect(),
{
    Rect { x: 285, y: 99, w: LIST_SIZE.0, h: LIST_SIZE.1 }
}

/// The compact window's sizes follow from its parts, and its pickers lie in its panel with a
/// twenty-point gutter.
pub proof fn lemma_lite_parts_fit()
    ensures
        CONTENT_WIDTH == LIST_SIZE.0 * 2 + 20 * 3 + 40,
        WINDOW_SIZE.1 == TITLE_BAR_HEIGHT + TITLE_BAR_DIVIDER_HEIGHT + CONTENT_HEIGHT + BOTTOM_PAD,
        contains(panel_rect(), preset_combo_rect()),
        contains(panel_rect(), output_combo_rect()),
        output_combo_rect().x - right(preset_combo_rect()) == 20,
        contains(window(), panel_rect()),
{
}

} // verus!
