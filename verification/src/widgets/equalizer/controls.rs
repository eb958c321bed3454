//! The controls beside the equalizer's faders: the bypass switch, the band-count menu, the
//! filter-width slider and the restore-defaults button, at their offsets inside the 168-point
//! column to the left of the panel.

use vstd::prelude::*;
use crate::layout::Rect;
use crate::text::{decimal, decimal_chars, push_str, string_of};

verus! {

/// The column's left margin.
pub const X_MARGIN: i32 = 8;
/// The band-count menu's size.
pub const COMBO_SIZE: (i32, i32) = (152, 20);
/// The filter-width slider's size.
pub const SLIDER_SIZE: (i32, i32) = (160, 18);
/// Height of the filter-width caption.
pub const CAPTION_HEIGHT: i32 = 14;
/// The restore-defaults button's size.
pub const BUTTON_SIZE: (i32, i32) = (18, 18);

/// The rectangle `w` × `h` at `(dx, dy)` from the column's top-left corner.
pub open spec fn at_offset(panel: Rect, dx: int, dy: int, w: int, h: int) -> Rect {
    Rect { x: (panel.x + dx) as i32, y: (panel.y + dy) as i32, w: w as i32, h: h as i32 }
}

/// Whether every offset inside the column fits the coordinate range.
pub open spec fn column_fits(panel: Rect) -> bool {
    panel.x + 50 <= i32::MAX && panel.y + 234 <= i32::MAX
}

/// The band-count menu.
pub fn band_combo(panel: Rect) -> (r: Rect)
    requires
        column_fits(panel),
    ensures
        r == at_offset(panel, X_MARGIN as int, 28, COMBO_SIZE.0 as int, COMBO_SIZE.1 as int),
{
    Rect { x: panel.x + X_MARGIN, y: panel.y + 28, w: COMBO_SIZE.0, h: COMBO_SIZE.1 }
}

/// The filter-width caption.
pub fn filter_q_caption(panel: Rect) -> (r: Rect)
    requires
        column_fits(panel),
    ensures
        r == at_offset(panel, 16, 138, 160, CAPTION_HEIGHT as int),
{
    Rect { x: panel.x + 16, y: panel.y + 138, w: 160, h: CAPTION_HEIGHT }
}

/// The filter-width slider.
pub fn filter_q_slider(panel: Rect) -> (r: Rect)
    requires
        column_fits(panel),
    ensures
        r == at_offset(panel, X_MARGIN as int, 153, SLIDER_SIZE.0 as int, SLIDER_SIZE.1 as int),
{
    Rect { x: panel.x + X_MARGIN, y: panel.y + 153, w: SLIDER_SIZE.0, h: SLIDER_SIZE.1 }
}

/// The restore-defaults button.
pub fn restore_defaults(panel: Rect) -> (r: Rect)
    requires
        column_fits(panel),
    ensures
        r == at_offset(panel, X_MARGIN as int, 234, BUTTON_SIZE.0 as int, BUTTON_SIZE.1 as int),
{
    Rect { x: panel.x + X_MARGIN, y: panel.y + 234, w: BUTTON_SIZE.0, h: BUTTON_SIZE.1 }
}

/// The equalizer's on/off switch, in the strip along the column's top.
pub fn bypass(panel: Rect) -> (r: Rect)
    requires
        column_fits(panel),
    ensures
        r == at_offset(panel, X_MARGIN as int, 5, 36, 18),
{
    Rect { x: panel.x + X_MARGIN, y: panel.y + 5, w: 36, h: 18 }
}

/// The caption beside the on/off switch.
pub fn bypass_caption(panel: Rect) -> (r: Rect)
    requires
        column_fits(panel),
    ensures
        r == at_offset(panel, 50, 5, 80, 18),
{
    Rect { x: panel.x + 50, y: panel.y + 5, w: 80, h: 18 }
}

/// The label shown for a band count: the count, a space and "Bands".
pub open spec fn band_count_text(count: nat) -> Seq<char> {
    decimal(count) + " Bands"@
}

/// The label shown for a band count.
pub fn band_count_label(count: usize) -> (s: String)
    ensures
        s@ == band_count_text(count as nat),
{
    let mut v = decimal_chars(count);
    push_str(&mut v, " Bands");
    string_of(&v)
}

} // verus!
