//! The Help pane's geometry: the version heading, the version line and the changelog link.

use vstd::prelude::*;
use super::X_MARGIN;
use crate::layout::{Rect, in_range};

verus! {

/// Top of the first heading.
pub const TEXT_Y: i32 = 50;
/// A heading's height.
pub const SECTION_HEIGHT: i32 = 24;
/// A line of body text.
pub const TEXT_HEIGHT: i32 = 20;
/// A link's height.
pub const LINK_HEIGHT: i32 = 24;
/// Links sit this much further in than their heading.
pub const INDENT: i32 = 5;
/// From a heading to its text, and from the text to its link.
pub const GAP: i32 = 10;

/// The pane's three rows, top to bottom: the version heading, the version line under it, and
/// the changelog link, indented, under that.
pub fn help_rows(pane: Rect) -> (rows: [Rect; 3])
    requires
        in_range(pane),
    ensures
        rows@[0] == (Rect {
            x: (pane.x + X_MARGIN) as i32,
            y: (pane.y + TEXT_Y) as i32,
            w: (pane.w - X_MARGIN) as i32,
            h: SECTION_HEIGHT,
        }),
        rows@[1] == (Rect {
            x: (pane.x + X_MARGIN) as i32,
            y: (pane.y + TEXT_Y + SECTION_HEIGHT + GAP) as i32,
            w: (pane.w - X_MARGIN) as i32,
            h: TEXT_HEIGHT,
        }),
        rows@[2] == (Rect {
            x: (pane.x + X_MARGIN + INDENT) as i32,
            y: (pane.y + TEXT_Y + SECTION_HEIGHT + GAP + TEXT_HEIGHT + GAP) as i32,
            w: (pane.w - X_MARGIN - INDENT) as i32,
            h: LINK_HEIGHT,
        }),
{
    let left = pane.x + X_MARGIN;
    let width = pane.w - X_MARGIN;
    let title = Rect { x: left, y: pane.y + TEXT_Y, w: width, h: SECTION_HEIGHT };
    let text = Rect { x: left, y: title.y + title.h + GAP, w: width, h: TEXT_HEIGHT };
    let changelog = Rect { x: left + INDENT, y: text.y + text.h + GAP, w: width - INDENT, h: LINK_HEIGHT };
    [title, text, changelog]
}

} // verus!
