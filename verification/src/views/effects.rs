//! The full window's effect column: five rows, each a caption over a slider, on a fixed pitch.

use vstd::prelude::*;
use crate::layout::{Rect, bottom, contains, right};
use crate::layout::pro::{audio_controls_rect, panel_rect};
use crate::widgets::slider::THUMB_RADIUS;

verus! {

/// Where a slider starts inside the column.
pub const X_MARGIN: i32 = 8;
/// Where the first caption starts.
pub const Y_MARGIN: i32 = 21;
/// Height of a caption.
pub const CAPTION_HEIGHT: i32 = 14;
/// A slider's size.
pub const SLIDER_SIZE: (i32, i32) = (160, 18);
/// The gap between a caption and its slider.
pub const CAPTION_GAP: i32 = 1;
/// The gap between a slider and the next caption.
pub const ROW_GAP: i32 = 10;
/// One row's full height: caption, gap, slider, gap.
pub const ROW_PITCH: i32 = 43;
/// The value readout's size beside the thumb.
pub const VALUE_LABEL_SIZE: (i32, i32) = (24, 12);
/// How far a value readout's text starts inside its box.
pub const LABEL_BORDER_LEFT: i32 = 5;
/// The column holds one row per effect.
pub const EFFECT_ROWS: usize = 5;

/// The top of row `index`, relative to the column's top.
pub open spec fn row_offset(index: int) -> int {
    Y_MARGIN + ROW_PITCH * index
}

/// Whether row `index`'s rectangles fit the coordinate range.
pub open spec fn row_fits(column: Rect, index: int) -> bool {
    &&& column.y + row_offset(index) + CAPTION_HEIGHT + CAPTION_GAP <= i32::MAX
    &&& column.x + X_MARGIN + THUMB_RADIUS <= i32::MAX
}

/// Row `index`'s caption: lined up with the thumb's centre at the slider's start, and as wide as
/// the slider.
pub open spec fn caption_of(column: Rect, index: int) -> Rect {
    Rect {
        x: (column.x + X_MARGIN + THUMB_RADIUS) as i32,
        y: (column.y + row_offset(index)) as i32,
        w: SLIDER_SIZE.0,
        h: CAPTION_HEIGHT,
    }
}

/// Row `index`'s slider, one point under its caption.
pub open spec fn slider_of(column: Rect, index: int) -> Rect {
    Rect {
        x: (column.x + X_MARGIN) as i32,
        y: (column.y + row_offset(index) + CAPTION_HEIGHT + CAPTION_GAP) as i32,
        w: SLIDER_SIZE.0,
        h: SLIDER_SIZE.1,
    }
}

/// The top of row `index` inside `column`.
pub fn row_top(column: Rect, index: usize) -> (y: i32)
    requires
        row_fits(column, index as int),
    ensures
        y == column.y + row_offset(index as int),
{
    proof {
        assert(0 <= ROW_PITCH * index) by (nonlinear_arith)
            requires
                0 <= index;
    }
    let pitch: i64 = ROW_PITCH as i64 * index as i64;
    (column.y as i64 + Y_MARGIN as i64 + pitch) as i32
}

/// Row `index`'s caption.
pub fn caption_rect(column: Rect, index: usize) -> (r: Rect)
    requires
        row_fits(column, index as int),
    ensures
        r == caption_of(column, index as int),
{
    Rect {
        x: column.x + X_MARGIN + THUMB_RADIUS,
        y: row_top(column, index),
        w: SLIDER_SIZE.0,
        h: CAPTION_HEIGHT,
    }
}

/// Row `index`'s slider.
pub fn slider_rect(column: Rect, index: usize) -> (r: Rect)
    requires
        row_fits(column, index as int),
    ensures
        r == slider_of(column, index as int),
{
    let caption = caption_rect(column, index);
    Rect {
        x: column.x + X_MARGIN,
        y: caption.y + caption.h + CAPTION_GAP,
        w: SLIDER_SIZE.0,
        h: SLIDER_SIZE.1,
    }
}

/// Every row of the full window's effect column stays inside the panel behind it. Each slider
/// runs flush to the column's right edge while its caption, starting eight points further in,
/// overhangs it by eight; the rows step down by [`ROW_PITCH`], and the last slider ends 31
/// points above the column's bottom.
pub proof fn lemma_effect_rows_stay_inside_the_panel(index: int)
    requires
        0 <= index < EFFECT_ROWS,
    ensures
        contains(panel_rect(), slider_of(audio_controls_rect(), index)),
        contains(panel_rect(), caption_of(audio_controls_rect(), index)),
        right(slider_of(audio_controls_rect(), index)) == right(audio_controls_rect()),
        right(caption_of(audio_controls_rect(), index)) == right(audio_controls_rect()) + 8,
        slider_of(audio_controls_rect(), index).y + SLIDER_SIZE.1 + ROW_GAP == caption_of(
            audio_controls_rect(),
            index + 1,
        ).y,
        bottom(slider_of(audio_controls_rect(), index)) <= bottom(audio_controls_rect()) - 31,
        index == EFFECT_ROWS - 1 ==> bottom(slider_of(audio_controls_rect(), index)) == bottom(
            audio_controls_rect(),
        ) - 31,
{
}

} // verus!
