//! The General pane's geometry: the language switch, the three checkboxes under it and the
//! hotkey reference table.

use vstd::prelude::*;
use super::X_MARGIN;
use crate::layout::{Rect, in_range};

verus! {

/// Top of the language switch.
pub const LANGUAGE_Y: i32 = 50;
/// The language switch's size.
pub const LANGUAGE_WIDTH: i32 = 300;
pub const LANGUAGE_HEIGHT: i32 = 30;
/// A checkbox's height.
pub const TOGGLE_HEIGHT: i32 = 30;
/// Gap from the language switch to the first checkbox.
pub const GAP_AFTER_LANGUAGE: i32 = 20;
/// Gap from the first checkbox to the second: twenty, not ten.
pub const GAP_AFTER_LAUNCH: i32 = 20;
/// Gap between the remaining checkboxes.
pub const GAP_BETWEEN_TOGGLES: i32 = 10;
/// Left edge of the hotkey rows inside the pane.
pub const HOTKEY_X: i32 = 45;
/// A hotkey row's height.
pub const HOTKEY_ROW_HEIGHT: i32 = 20;
/// From one hotkey row to the next.
pub const HOTKEY_PITCH: i32 = 30;
/// The command name's column.
pub const HOTKEY_NAME_WIDTH: i32 = 200;
/// The gutter between the name and the command line.
pub const HOTKEY_GUTTER: i32 = 10;
/// Height of the note above the table.
pub const NOTE_HEIGHT: i32 = 70;
/// Height of the link under the table.
pub const LINK_HEIGHT: i32 = 24;

/// The language switch.
pub fn language_rect(pane: Rect) -> (r: Rect)
    requires
        in_range(pane),
    ensures
        r == (Rect { x: (pane.x + X_MARGIN) as i32, y: (pane.y + LANGUAGE_Y) as i32, w: LANGUAGE_WIDTH, h: LANGUAGE_HEIGHT }),
{
    Rect { x: pane.x + X_MARGIN, y: pane.y + LANGUAGE_Y, w: LANGUAGE_WIDTH, h: LANGUAGE_HEIGHT }
}

/// The top of checkbox `index`, relative to the pane's top: twenty points under the switch, then
/// twenty points under the first checkbox and ten under each after it.
pub open spec fn toggle_offset(index: int) -> int
    decreases index,
{
    if index <= 0 {
        LANGUAGE_Y + LANGUAGE_HEIGHT + GAP_AFTER_LANGUAGE
    } else {
        toggle_offset(index - 1) + TOGGLE_HEIGHT + if index - 1 == 0 {
            GAP_AFTER_LAUNCH
        } else {
            GAP_BETWEEN_TOGGLES
        }
    }
}

/// Checkbox `index`'s offset in closed form.
proof fn lemma_toggle_offset(index: int)
    requires
        0 <= index,
    ensures
        toggle_offset(index) == if index == 0 { 100 } else { 110 + 40 * index },
    decreases index,
{
    if index > 0 {
        lemma_toggle_offset(index - 1);
    }
}

/// Checkbox `index`.
pub fn toggle_rect(pane: Rect, index: usize) -> (r: Rect)
    requires
        in_range(pane),
        pane.y + 110 + 40 * index <= i32::MAX,
    ensures
        r == (Rect {
            x: (pane.x + X_MARGIN) as i32,
            y: (pane.y + toggle_offset(index as int)) as i32,
            w: (pane.w - X_MARGIN) as i32,
            h: TOGGLE_HEIGHT,
        }),
{
    proof {
        lemma_toggle_offset(index as int);
    }
    let offset: i64 = if index == 0 { 100 } else { 110 + 40 * (index as i64) };
    Rect {
        x: pane.x + X_MARGIN,
        y: (pane.y as i64 + offset) as i32,
        w: pane.w - X_MARGIN,
        h: TOGGLE_HEIGHT,
    }
}

/// The hotkey table's heading, ten points under the last checkbox.
pub open spec fn hotkey_title_of(pane: Rect) -> Rect {
    Rect {
        x: (pane.x + X_MARGIN) as i32,
        y: (pane.y + toggle_offset(2) + TOGGLE_HEIGHT + GAP_BETWEEN_TOGGLES) as i32,
        w: (pane.w - X_MARGIN) as i32,
        h: HOTKEY_ROW_HEIGHT,
    }
}

/// The note above the table, five points under the heading.
pub open spec fn hotkey_note_of(pane: Rect) -> Rect {
    let title = hotkey_title_of(pane);
    Rect { x: title.x, y: (title.y + title.h + 5) as i32, w: title.w, h: NOTE_HEIGHT }
}

/// Hotkey row `index`: five points under the note, then a pitch apart, indented past the
/// heading.
pub open spec fn hotkey_row_of(pane: Rect, index: int) -> Rect {
    let note = hotkey_note_of(pane);
    Rect {
        x: (pane.x + HOTKEY_X) as i32,
        y: (note.y + note.h + 5 + index * HOTKEY_PITCH) as i32,
        w: (pane.w - HOTKEY_X) as i32,
        h: HOTKEY_ROW_HEIGHT,
    }
}

/// The hotkey table's heading.
pub fn hotkey_title_rect(pane: Rect) -> (r: Rect)
    requires
        in_range(pane),
    ensures
        r == hotkey_title_of(pane),
{
    proof {
        lemma_toggle_offset(2);
    }
    let last = toggle_rect(pane, 2);
    Rect { x: pane.x + X_MARGIN, y: last.y + last.h + GAP_BETWEEN_TOGGLES, w: pane.w - X_MARGIN, h: HOTKEY_ROW_HEIGHT }
}

/// The note above the hotkey table.
pub fn hotkey_note_rect(pane: Rect) -> (r: Rect)
    requires
        in_range(pane),
    ensures
        r == hotkey_note_of(pane),
{
    proof {
        lemma_toggle_offset(2);
    }
    let title = hotkey_title_rect(pane);
    Rect { x: title.x, y: title.y + title.h + 5, w: title.w, h: NOTE_HEIGHT }
}

/// Hotkey row `index`.
pub fn hotkey_row_rect(pane: Rect, index: usize) -> (r: Rect)
    requires
        in_range(pane),
        pane.y + 330 + HOTKEY_PITCH * index <= i32::MAX,
    ensures
        r == hotkey_row_of(pane, index as int),
{
    proof {
        lemma_toggle_offset(2);
    }
    let note = hotkey_note_rect(pane);
    let y: i64 = note.y as i64 + note.h as i64 + 5 + (HOTKEY_PITCH as i64) * (index as i64);
    Rect { x: pane.x + HOTKEY_X, y: y as i32, w: pane.w - HOTKEY_X, h: HOTKEY_ROW_HEIGHT }
}

/// The link under the hotkey table: ten points under the last of the five rows, as wide.
pub fn hotkey_link_rect(pane: Rect) -> (r: Rect)
    requires
        in_range(pane),
    ensures
        r == (Rect {
            x: hotkey_row_of(pane, 4).x,
            y: (hotkey_row_of(pane, 4).y + HOTKEY_ROW_HEIGHT + 10) as i32,
            w: hotkey_row_of(pane, 4).w,
            h: LINK_HEIGHT,
        }),
{
    proof {
        lemma_toggle_offset(2);
    }
    let last = hotkey_row_rect(pane, 4);
    Rect { x: last.x, y: last.y + last.h + 10, w: last.w, h: LINK_HEIGHT }
}

} // verus!
