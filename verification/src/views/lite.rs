//! The compact window's panel: the rounded backdrop that frames its two pickers.

use vstd::prelude::*;
use super::at;
use crate::layout::lite::{LIST_SIZE, output_combo, output_combo_rect, panel_rect, preset_combo, preset_combo_rect};
use crate::layout::{Rect, bottom, contains, right};

verus! {

/// The panel's rounded corner: ten, not the full window's eight.
pub const PANEL_CORNER_RADIUS: i32 = 10;
/// Points of panel around the pickers.
pub const PANEL_PADDING: i32 = 20;

/// The panel in window coordinates: as wide as the layout's panel, and reaching
/// [`PANEL_PADDING`] above and below the pickers.
pub open spec fn panel_local() -> Rect {
    Rect {
        x: panel_rect().x,
        y: (preset_combo_rect().y - PANEL_PADDING) as i32,
        w: panel_rect().w,
        h: (LIST_SIZE.1 + PANEL_PADDING * 2) as i32,
    }
}

/// The rounded panel behind the two pickers, for a window whose top-left corner is `origin`.
pub fn panel(origin: (i32, i32)) -> (r: Rect)
    requires
        -268435456 <= origin.0 <= 268435456,
        -268435456 <= origin.1 <= 268435456,
    ensures
        r == (Rect { x: (origin.0 + panel_local().x) as i32, y: (origin.1 + panel_local().y) as i32, ..panel_local() }),
{
    let combo = preset_combo();
    let output = output_combo();
    let reference = crate::layout::lite::panel();
    let top: i32 = if combo.y <= output.y { combo.y } else { output.y };
    at(origin, Rect { x: reference.x, y: top - PANEL_PADDING, w: reference.w, h: LIST_SIZE.1 + PANEL_PADDING * 2 })
}

/// The compact window's panel frames both pickers with [`PANEL_PADDING`] above, below and to the
/// left and right of the pair, and sits in the window with twenty points of margin at both sides
/// and under it.
pub proof fn lemma_panel_frames_the_pickers()
    ensures
        contains(panel_local(), preset_combo_rect()),
        contains(panel_local(), output_combo_rect()),
        preset_combo_rect().y - panel_local().y == PANEL_PADDING,
        bottom(panel_local()) - bottom(preset_combo_rect()) == PANEL_PADDING,
        preset_combo_rect().x - panel_local().x == PANEL_PADDING,
        right(panel_local()) - right(output_combo_rect()) == PANEL_PADDING,
        panel_local().x == 20,
        crate::layout::lite::WINDOW_SIZE.0 - right(panel_local()) == 20,
        crate::layout::lite::WINDOW_SIZE.1 - bottom(panel_local()) == 20,
{
}

} // verus!
