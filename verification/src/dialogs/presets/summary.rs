//! Import-summary geometry.

use vstd::prelude::*;
use crate::layout::{CentredRect, Rect, in_range};

verus! {

/// The content size.
pub const CONTENT_SIZE: (i32, i32) = (350, 340);
/// Outer window size, from the shared formula.
pub const WINDOW_SIZE: (i32, i32) = (360, 427);
pub const MARGIN: i32 = 20;
/// Height of a line of text.
pub const TEXT_HEIGHT: i32 = 20;
/// The height of each read-only name box.
pub const LIST_HEIGHT: i32 = 100;
/// The OK button's size; it is 50 wide, not 80.
pub const BUTTON_SIZE: (i32, i32) = (50, 30);
/// Rows of names are set in the normal font; the box scrolls when they overflow.
pub const ROW_HEIGHT: i32 = 20;

/// The heading of block `index` (imported, then skipped): each block is a heading, a list and a
/// gap, stacked from ten points down.
pub open spec fn summary_label_of(content: Rect, index: int) -> Rect {
    Rect {
        x: (content.x + MARGIN) as i32,
        y: (content.y + 10 + index * (TEXT_HEIGHT + LIST_HEIGHT + 20)) as i32,
        w: (content.w - MARGIN * 2) as i32,
        h: TEXT_HEIGHT,
    }
}

/// The list of block `index`, ten points under its heading and as wide.
pub open spec fn summary_list_of(content: Rect, index: int) -> Rect {
    let label = summary_label_of(content, index);
    Rect { x: label.x, y: (label.y + TEXT_HEIGHT + 10) as i32, w: label.w, h: LIST_HEIGHT }
}

/// The heading of block `index`.
pub fn summary_label_rect(content: Rect, index: usize) -> (r: Rect)
    requires
        in_range(content),
        content.y + 10 + index * (TEXT_HEIGHT + LIST_HEIGHT + 20) + TEXT_HEIGHT + 10 <= i32::MAX,
    ensures
        r == summary_label_of(content, index as int),
{
    assert(index * (TEXT_HEIGHT + LIST_HEIGHT + 20) == index * 140);
    assert(index <= 100000000);
    let block: i64 = (index as i64) * 140;
    let y: i64 = content.y as i64 + 10 + block;
    Rect { x: content.x + MARGIN, y: y as i32, w: content.w - MARGIN * 2, h: TEXT_HEIGHT }
}

/// The list of block `index`.
pub fn summary_list_rect(content: Rect, index: usize) -> (r: Rect)
    requires
        in_range(content),
        content.y + 10 + index * (TEXT_HEIGHT + LIST_HEIGHT + 20) + TEXT_HEIGHT + 10 <= i32::MAX,
    ensures
        r == summary_list_of(content, index as int),
{
    let label = summary_label_rect(content, index);
    Rect { x: label.x, y: label.y + label.h + 10, w: label.w, h: LIST_HEIGHT }
}

/// The OK button: twenty points under the second list, centred in the content, on a half point
/// when the room beside it is odd.
pub fn summary_ok_rect(content: Rect) -> (r: CentredRect)
    requires
        in_range(content),
    ensures
        r == (CentredRect {
            x_halves: (content.x * 2 + content.w - BUTTON_SIZE.0) as i64,
            y: (summary_list_of(content, 1).y + LIST_HEIGHT + 20) as i32,
            w: BUTTON_SIZE.0,
            h: BUTTON_SIZE.1,
        }),
{
    let list = summary_list_rect(content, 1);
    CentredRect {
        x_halves: content.x as i64 * 2 + content.w as i64 - BUTTON_SIZE.0 as i64,
        y: list.y + list.h + 20,
        w: BUTTON_SIZE.0,
        h: BUTTON_SIZE.1,
    }
}

} // verus!
