//! The Audio pane's geometry: the device list's heading, the list, the checkbox under it, the
//! rounded group behind the three, and the reset button.

use vstd::prelude::*;
use super::{RESET_MAX_LINES, X_MARGIN};
use crate::layout::{Rect, in_range};
use crate::text::{chars_of, lines, lines_of};

verus! {

/// How far the group's backdrop reaches past the heading, the list and the checkbox.
pub const GROUP_MARGIN: i32 = 10;
/// Top of the device list's heading.
pub const ENDPOINT_Y: i32 = 50;
/// The heading's size.
pub const LABEL_WIDTH: i32 = 400;
pub const LABEL_HEIGHT: i32 = 14;
/// The device list's height.
pub const LIST_HEIGHT: i32 = 260;
/// The checkbox's height.
pub const TOGGLE_HEIGHT: i32 = 30;
/// The narrowest and the widest the reset button may be.
pub const RESET_MIN_WIDTH: i32 = 220;
pub const RESET_MAX_WIDTH: i32 = 315;
/// Height of one line of the reset button's label.
pub const RESET_LINE_HEIGHT: i32 = 24;
/// The group's rounded corner.
pub const GROUP_CORNER: i32 = 8;

/// The device list's heading.
pub open spec fn output_title_of(pane: Rect) -> Rect {
    Rect { x: (pane.x + X_MARGIN) as i32, y: (pane.y + ENDPOINT_Y) as i32, w: LABEL_WIDTH, h: LABEL_HEIGHT }
}

/// The device list: ten points under the heading, as wide as the pane less twice a margin and
/// five points.
pub open spec fn output_list_of(pane: Rect) -> Rect {
    Rect {
        x: (pane.x + X_MARGIN) as i32,
        y: (pane.y + ENDPOINT_Y + LABEL_HEIGHT + 10) as i32,
        w: (pane.w - (X_MARGIN + 5) * 2) as i32,
        h: LIST_HEIGHT,
    }
}

/// The checkbox: ten points under the list, as wide as the list.
pub open spec fn prioritize_toggle_of(pane: Rect) -> Rect {
    let list = output_list_of(pane);
    Rect { x: list.x, y: (list.y + list.h + 10) as i32, w: list.w, h: TOGGLE_HEIGHT }
}

/// The device list's heading.
pub fn output_title_rect(pane: Rect) -> (r: Rect)
    requires
        in_range(pane),
    ensures
        r == output_title_of(pane),
{
    Rect { x: pane.x + X_MARGIN, y: pane.y + ENDPOINT_Y, w: LABEL_WIDTH, h: LABEL_HEIGHT }
}

/// The device list.
pub fn output_list_rect(pane: Rect) -> (r: Rect)
    requires
        in_range(pane),
    ensures
        r == output_list_of(pane),
{
    let title = output_title_rect(pane);
    Rect { x: pane.x + X_MARGIN, y: title.y + title.h + 10, w: pane.w - (X_MARGIN + 5) * 2, h: LIST_HEIGHT }
}

/// The checkbox under the device list.
pub fn prioritize_toggle_rect(pane: Rect) -> (r: Rect)
    requires
        in_range(pane),
    ensures
        r == prioritize_toggle_of(pane),
{
    let list = output_list_rect(pane);
    Rect { x: list.x, y: list.y + list.h + 10, w: list.w, h: TOGGLE_HEIGHT }
}

/// The rounded backdrop behind the heading, the list and the checkbox: each edge
/// [`GROUP_MARGIN`] points out.
pub fn group_rect(pane: Rect) -> (r: Rect)
    requires
        in_range(pane),
    ensures
        r.x == output_title_of(pane).x - GROUP_MARGIN,
        r.y == output_title_of(pane).y - GROUP_MARGIN,
        r.x + r.w == output_list_of(pane).x + output_list_of(pane).w + GROUP_MARGIN,
        r.y + r.h == prioritize_toggle_of(pane).y + prioritize_toggle_of(pane).h + GROUP_MARGIN,
{
    let title = output_title_rect(pane);
    let list = output_list_rect(pane);
    let toggle = prioritize_toggle_rect(pane);
    let left: i32 = title.x - GROUP_MARGIN;
    let top: i32 = title.y - GROUP_MARGIN;
    let right: i32 = list.x + list.w + GROUP_MARGIN;
    let bottom: i32 = toggle.y + toggle.h + GROUP_MARGIN;
    Rect { x: left, y: top, w: right - left, h: bottom - top }
}

/// The reset button, of the size its label needs: thirty points under the checkbox, at the
/// pane's margin.
pub fn reset_button_rect(pane: Rect, size: (i32, i32)) -> (r: Rect)
    requires
        in_range(pane),
    ensures
        r == (Rect {
            x: (pane.x + X_MARGIN) as i32,
            y: (prioritize_toggle_of(pane).y + TOGGLE_HEIGHT + 30) as i32,
            w: size.0,
            h: size.1,
        }),
{
    let toggle = prioritize_toggle_rect(pane);
    Rect { x: pane.x + X_MARGIN, y: toggle.y + toggle.h + 30, w: size.0, h: size.1 }
}

/// How many lines the reset button's label takes when it is `text_width` points wide, rounded up
/// to a whole point: as many as it has (at least one), or as many as it wraps to in the widest
/// button less one line's height, whichever is more, and never more than three.
pub open spec fn reset_lines_of(label: Seq<char>, text_width: int) -> int {
    let own = if lines_of(label).len() == 0 { 1 } else { lines_of(label).len() as int };
    let usable = RESET_MAX_WIDTH - RESET_LINE_HEIGHT;
    let wrapped = if text_width <= usable { 1 } else { (text_width + usable - 1) / usable };
    let lines = if own < wrapped { wrapped } else { own };
    if lines > RESET_MAX_LINES { RESET_MAX_LINES as int } else { lines }
}

/// The reset button's height: a line's height for each line its label takes.
///
/// `text_width` is the label's measured width rounded up to a whole point; a label wraps to the
/// same number of lines either way, since a line holds a whole number of points.
pub fn reset_button_height(label: &str, text_width: u32) -> (h: i32)
    ensures
        h == RESET_LINE_HEIGHT * reset_lines_of(label@, text_width as int),
        RESET_LINE_HEIGHT <= h <= RESET_LINE_HEIGHT * 3,
{
    let chars = chars_of(label);
    let own_lines = lines(&chars);
    let own: usize = if own_lines.len() == 0 { 1 } else { own_lines.len() };
    proof {
        assert(own_lines@.len() == lines_of(label@).len());
    }
    let usable: u64 = (RESET_MAX_WIDTH - RESET_LINE_HEIGHT) as u64;
    let width: u64 = text_width as u64;
    let wrapped: u64 = if width <= usable { 1 } else { (width + usable - 1) / usable };
    let count: u64 = if (own as u64) < wrapped { wrapped } else { own as u64 };
    let capped: i32 = if count > RESET_MAX_LINES as u64 { RESET_MAX_LINES as i32 } else { count as i32 };
    RESET_LINE_HEIGHT * capped
}

} // verus!
