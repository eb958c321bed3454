//! Import-window geometry.

use vstd::prelude::*;
use crate::layout::{Rect, in_range};

verus! {

/// The room an embedded file browser needs. Kept for the record: the folder picker used
/// instead needs much less.
pub const BROWSER_CONTENT_SIZE: (i32, i32) = (400, 400);
/// The content size once the browser is replaced by a folder picker.
pub const CONTENT_SIZE: (i32, i32) = (400, 180);
/// Outer window size, from the shared formula.
pub const WINDOW_SIZE: (i32, i32) = (410, 267);
/// The working rect is inset 20 on each side from a top of 10.
pub const MARGIN: i32 = 20;
/// Height of a line of text.
pub const TEXT_HEIGHT: i32 = 20;
/// The Import button's size.
pub const BUTTON_SIZE: (i32, i32) = (80, 30);
/// The folder chooser is wider than Import because its label is a sentence.
pub const CHOOSE_BUTTON_SIZE: (i32, i32) = (160, 30);
/// Two lines of path, so a deep `~/Documents/…` is readable.
pub const PATH_HEIGHT: i32 = 40;

/// The prompt: the working rect's top line, half a margin down.
pub open spec fn label_of(content: Rect) -> Rect {
    Rect {
        x: (content.x + MARGIN) as i32,
        y: (content.y + MARGIN / 2) as i32,
        w: (content.w - MARGIN * 2) as i32,
        h: TEXT_HEIGHT,
    }
}

/// The folder chooser, ten points under the prompt.
pub open spec fn choose_of(content: Rect) -> Rect {
    Rect {
        x: (content.x + MARGIN) as i32,
        y: (label_of(content).y + TEXT_HEIGHT + 10) as i32,
        w: CHOOSE_BUTTON_SIZE.0,
        h: CHOOSE_BUTTON_SIZE.1,
    }
}

/// The prompt.
pub fn label_rect(content: Rect) -> (r: Rect)
    requires
        in_range(content),
    ensures
        r == label_of(content),
{
    Rect { x: content.x + MARGIN, y: content.y + MARGIN / 2, w: content.w - MARGIN * 2, h: TEXT_HEIGHT }
}

/// The folder chooser.
pub fn choose_rect(content: Rect) -> (r: Rect)
    requires
        in_range(content),
    ensures
        r == choose_of(content),
{
    let label = label_rect(content);
    Rect { x: content.x + MARGIN, y: label.y + label.h + 10, w: CHOOSE_BUTTON_SIZE.0, h: CHOOSE_BUTTON_SIZE.1 }
}

/// The chosen folder's path, ten points under the chooser, across the working rect.
pub fn path_rect(content: Rect) -> (r: Rect)
    requires
        in_range(content),
    ensures
        r == (Rect {
            x: (content.x + MARGIN) as i32,
            y: (choose_of(content).y + CHOOSE_BUTTON_SIZE.1 + 10) as i32,
            w: (content.w - MARGIN * 2) as i32,
            h: PATH_HEIGHT,
        }),
{
    let choose = choose_rect(content);
    Rect { x: content.x + MARGIN, y: choose.y + choose.h + 10, w: content.w - MARGIN * 2, h: PATH_HEIGHT }
}

/// The Import button, in the content's bottom-right corner: a margin from the right and ten
/// points from the bottom.
pub fn import_rect(content: Rect) -> (r: Rect)
    requires
        in_range(content),
    ensures
        r == (Rect {
            x: (content.x + content.w - MARGIN - BUTTON_SIZE.0) as i32,
            y: (content.y + content.h - 10 - BUTTON_SIZE.1) as i32,
            w: BUTTON_SIZE.0,
            h: BUTTON_SIZE.1,
        }),
{
    Rect {
        x: content.x + content.w - MARGIN - BUTTON_SIZE.0,
        y: content.y + content.h - 10 - BUTTON_SIZE.1,
        w: BUTTON_SIZE.0,
        h: BUTTON_SIZE.1,
    }
}

} // verus!
