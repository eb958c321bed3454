//! Toast geometry.

use vstd::prelude::*;
use crate::layout::{Rect, in_range};

verus! {

/// The width a toast starts at and only grows from.
pub const WIDTH: i32 = 216;
/// The height of a one-line toast.
pub const HEIGHT: i32 = 80;
/// The widest a toast may become.
pub const MAX_WIDTH: i32 = 560;
/// The tallest a toast may become, i.e. three lines.
pub const MAX_HEIGHT: i32 = 120;
/// The bubble's rounded corner.
pub const CORNER_RADIUS: i32 = 16;
/// At most three lines are ever shown.
pub const MAX_LINES: usize = 3;
/// Pitch of the message lines.
pub const LINE_HEIGHT: i32 = 20;
/// y of the first line.
pub const FIRST_LINE_Y: i32 = 30;
/// A toast is `line_count * LINE_HEIGHT + HEIGHT_PADDING` tall.
pub const HEIGHT_PADDING: i32 = 60;
/// Horizontal slack kept free of text in the autohide bubble…
pub const AUTOHIDE_MARGIN: i32 = 80;
/// …and in the in-window banner.
pub const BANNER_MARGIN: i32 = 40;
/// Left inset of the text in the autohide bubble…
pub const AUTOHIDE_X: i32 = 40;
/// …and in the in-window banner.
pub const BANNER_X: i32 = 20;
/// Gilroy Regular at 17 — the toast's font.
pub const FONT: i32 = 17;
/// Each message line gives up one point at its top to its border…
pub const LINE_BORDER_TOP: i32 = 1;
/// …and two at its bottom.
pub const LINE_BORDER_BOTTOM: i32 = 2;

/// The tallest toast is exactly three lines tall, and a line keeps seventeen of its twenty
/// points for its text.
pub proof fn lemma_toast_heights()
    ensures
        MAX_HEIGHT == MAX_LINES * LINE_HEIGHT + HEIGHT_PADDING,
        HEIGHT == LINE_HEIGHT + HEIGHT_PADDING,
        LINE_HEIGHT - LINE_BORDER_TOP - LINE_BORDER_BOTTOM == 17,
{
}

/// Line `index` of a toast in `bounds`: inset from both sides by the layout's text margin,
/// [`FIRST_LINE_Y`] from the top and a [`LINE_HEIGHT`] apart.
pub fn line_rect(bounds: Rect, index: usize, autohide: bool) -> (r: Rect)
    requires
        in_range(bounds),
        bounds.y + FIRST_LINE_Y + LINE_HEIGHT * index <= i32::MAX,
    ensures
        r == (Rect {
            x: (bounds.x + if autohide { AUTOHIDE_X } else { BANNER_X }) as i32,
            y: (bounds.y + LINE_HEIGHT * index + FIRST_LINE_Y) as i32,
            w: (bounds.w - 2 * if autohide { AUTOHIDE_X } else { BANNER_X }) as i32,
            h: LINE_HEIGHT,
        }),
{
    let x: i32 = if autohide { AUTOHIDE_X } else { BANNER_X };
    assert(index <= 1000000000);
    let y: i64 = bounds.y as i64 + (LINE_HEIGHT as i64) * (index as i64) + FIRST_LINE_Y as i64;
    Rect { x: bounds.x + x, y: y as i32, w: bounds.w - x * 2, h: LINE_HEIGHT }
}

} // verus!
