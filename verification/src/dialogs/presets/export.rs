//! Export-window geometry.

use vstd::prelude::*;
use crate::layout::{Rect, in_range};

verus! {

/// The content size.
pub const CONTENT_SIZE: (i32, i32) = (400, 405);
/// Outer window size, from the shared formula.
pub const WINDOW_SIZE: (i32, i32) = (410, 492);
pub const MARGIN: i32 = 20;
/// Height of a line of text.
pub const TEXT_HEIGHT: i32 = 20;
/// Height of the preset list.
pub const LIST_HEIGHT: i32 = 310;
/// The Export button's size.
pub const BUTTON_SIZE: (i32, i32) = (80, 30);
/// A list row: a line of text and six points.
pub const ROW_HEIGHT: i32 = TEXT_HEIGHT + 6;
/// Rows inset their text by ten points on each side.
pub const ROW_TEXT_INSET: i32 = 10;
/// The progress bar spans the whole content width, ignoring the 20 point margins.
pub const PROGRESS_HEIGHT: i32 = 2;
/// The progress animation's frame rate.
pub const PROGRESS_FPS: i32 = 30;

/// The prompt, ten points down across the working rect.
pub open spec fn export_label_of(content: Rect) -> Rect {
    Rect {
        x: (content.x + MARGIN) as i32,
        y: (content.y + 10) as i32,
        w: (content.w - MARGIN * 2) as i32,
        h: TEXT_HEIGHT,
    }
}

/// The preset list, ten points under the prompt and as wide.
pub open spec fn export_list_of(content: Rect) -> Rect {
    let label = export_label_of(content);
    Rect { x: label.x, y: (label.y + TEXT_HEIGHT + 10) as i32, w: label.w, h: LIST_HEIGHT }
}

/// The progress bar, ten points under the list, across the whole content.
pub open spec fn progress_of(content: Rect) -> Rect {
    Rect {
        x: content.x,
        y: (export_list_of(content).y + LIST_HEIGHT + 10) as i32,
        w: content.w,
        h: PROGRESS_HEIGHT,
    }
}

/// The prompt.
pub fn export_label_rect(content: Rect) -> (r: Rect)
    requires
        in_range(content),
    ensures
        r == export_label_of(content),
{
    Rect { x: content.x + MARGIN, y: content.y + 10, w: content.w - MARGIN * 2, h: TEXT_HEIGHT }
}

/// The preset list.
pub fn export_list_rect(content: Rect) -> (r: Rect)
    requires
        in_range(content),
    ensures
        r == export_list_of(content),
{
    let label = export_label_rect(content);
    Rect { x: label.x, y: label.y + label.h + 10, w: label.w, h: LIST_HEIGHT }
}

/// The progress bar.
pub fn progress_rect(content: Rect) -> (r: Rect)
    requires
        in_range(content),
    ensures
        r == progress_of(content),
{
    let list = export_list_rect(content);
    Rect { x: content.x, y: list.y + list.h + 10, w: content.w, h: PROGRESS_HEIGHT }
}

/// The Export button: ten points under the progress bar, a margin in from the right.
pub fn export_button_rect(content: Rect) -> (r: Rect)
    requires
        in_range(content),
    ensures
        r == (Rect {
            x: (content.x + content.w - MARGIN - BUTTON_SIZE.0) as i32,
            y: (progress_of(content).y + PROGRESS_HEIGHT + 10) as i32,
            w: BUTTON_SIZE.0,
            h: BUTTON_SIZE.1,
        }),
{
    let progress = progress_rect(content);
    Rect {
        x: content.x + content.w - MARGIN - BUTTON_SIZE.0,
        y: progress.y + progress.h + 10,
        w: BUTTON_SIZE.0,
        h: BUTTON_SIZE.1,
    }
}

} // verus!
