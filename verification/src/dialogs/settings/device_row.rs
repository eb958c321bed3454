//! One row of the device priority list: the ▲ and ▼ buttons at its left, the device's name, the
//! preset combo and the ✕ at its right.

use vstd::prelude::*;
use crate::layout::{Rect, in_range, right};

verus! {

/// A row's height.
pub const HEIGHT: i32 = 40;
/// The side of a ▲, ▼ or ✕ button.
pub const BUTTON_WIDTH: i32 = 18;
/// The row's inner margin.
pub const MARGIN: i32 = 5;
/// The preset combo's width.
pub const PRESET_WIDTH: i32 = 150;
/// The list's rounded corner.
pub const CORNER: i32 = 8;
/// How far the rows sit inside the list's frame.
pub const LIST_INSET_X: i32 = 5;
pub const LIST_INSET_Y: i32 = 10;
/// How far the name, the combo and the ✕ sit inside the row.
pub const ROW_INSET: i32 = 2;

/// A button's square at `x` from the row's left edge, centred on the row's nominal height.
pub open spec fn square_at(row: Rect, x: int) -> Rect {
    Rect {
        x: (row.x + x) as i32,
        y: (row.y + (HEIGHT - BUTTON_WIDTH) / 2) as i32,
        w: BUTTON_WIDTH,
        h: BUTTON_WIDTH,
    }
}

/// Where ▲ sits: at the margin, or half a button further in on the last row, which has no ▼
/// beside it.
pub open spec fn up_x(index: int, count: int) -> int {
    if index + 1 < count {
        MARGIN as int
    } else {
        MARGIN + BUTTON_WIDTH / 2
    }
}

/// Where ▼ sits: right beside ▲, or in ▲'s place on the first row, which has no ▲.
pub open spec fn down_x(index: int, count: int) -> int {
    if index == 0 {
        MARGIN + BUTTON_WIDTH / 2
    } else {
        up_x(index, count) + BUTTON_WIDTH
    }
}

fn button_square(row: Rect, x: i32) -> (r: Rect)
    requires
        in_range(row),
        0 <= x <= 100,
    ensures
        r == square_at(row, x as int),
{
    Rect { x: row.x + x, y: row.y + (HEIGHT - BUTTON_WIDTH) / 2, w: BUTTON_WIDTH, h: BUTTON_WIDTH }
}

/// The ▲ button of row `index` of `count`.
pub fn up_button_rect(row: Rect, index: usize, count: usize) -> (r: Rect)
    requires
        in_range(row),
    ensures
        r == square_at(row, up_x(index as int, count as int)),
{
    let last = !(count > 0 && index < count - 1);
    let x: i32 = if !last { MARGIN } else { MARGIN + BUTTON_WIDTH / 2 };
    button_square(row, x)
}

/// The ▼ button of row `index` of `count`.
pub fn down_button_rect(row: Rect, index: usize, count: usize) -> (r: Rect)
    requires
        in_range(row),
    ensures
        r == square_at(row, down_x(index as int, count as int)),
{
    let x: i32 = if index == 0 {
        MARGIN + BUTTON_WIDTH / 2
    } else {
        let up = up_button_rect(row, index, count);
        up.x + up.w - row.x
    };
    button_square(row, x)
}

/// The ✕ button: a margin in from the right edge of the row less its inset.
pub open spec fn remove_of(row: Rect) -> Rect {
    Rect {
        x: (row.x + row.w - ROW_INSET - MARGIN - BUTTON_WIDTH) as i32,
        y: (row.y + (HEIGHT - BUTTON_WIDTH) / 2) as i32,
        w: BUTTON_WIDTH,
        h: BUTTON_WIDTH,
    }
}

/// The preset combo: [`PRESET_WIDTH`] wide and as tall as the row less its inset, a margin left
/// of the ✕.
pub open spec fn preset_combo_of(row: Rect) -> Rect {
    Rect {
        x: (remove_of(row).x - PRESET_WIDTH - MARGIN) as i32,
        y: (row.y + ROW_INSET) as i32,
        w: PRESET_WIDTH,
        h: (row.h - ROW_INSET * 2) as i32,
    }
}

/// The ✕ button.
pub fn remove_button_rect(row: Rect) -> (r: Rect)
    requires
        in_range(row),
    ensures
        r == remove_of(row),
{
    Rect {
        x: row.x + row.w - ROW_INSET - MARGIN - BUTTON_WIDTH,
        y: row.y + (HEIGHT - BUTTON_WIDTH) / 2,
        w: BUTTON_WIDTH,
        h: BUTTON_WIDTH,
    }
}

/// The per-device preset combo.
pub fn preset_combo_rect(row: Rect) -> (r: Rect)
    requires
        in_range(row),
    ensures
        r == preset_combo_of(row),
{
    let remove = remove_button_rect(row);
    Rect { x: remove.x - PRESET_WIDTH - MARGIN, y: row.y + ROW_INSET, w: PRESET_WIDTH, h: row.h - ROW_INSET * 2 }
}

/// The device's name: from past both arrow buttons to a margin short of the combo, as tall as the
/// row less its inset.
pub fn device_name_rect(row: Rect) -> (r: Rect)
    requires
        in_range(row),
    ensures
        r.x == row.x + MARGIN * 2 + BUTTON_WIDTH * 2,
        r.y == row.y + ROW_INSET,
        r.x + r.w == preset_combo_of(row).x - MARGIN,
        r.y + r.h == row.y + row.h - ROW_INSET,
{
    let combo = preset_combo_rect(row);
    let left: i32 = row.x + MARGIN * 2 + BUTTON_WIDTH * 2;
    let right: i32 = combo.x - MARGIN;
    Rect { x: left, y: row.y + ROW_INSET, w: right - left, h: row.h - ROW_INSET * 2 }
}

/// The name's rectangle, as [`device_name_rect`] states it.
pub open spec fn device_name_of(row: Rect) -> Rect {
    Rect {
        x: (row.x + MARGIN * 2 + BUTTON_WIDTH * 2) as i32,
        y: (row.y + ROW_INSET) as i32,
        w: (preset_combo_of(row).x - MARGIN - (row.x + MARGIN * 2 + BUTTON_WIDTH * 2)) as i32,
        h: (row.h - ROW_INSET * 2) as i32,
    }
}

/// Nothing in a device row overlaps anything else, whatever the row's width: where a row draws
/// both arrows ▲ ends where ▼ starts, every arrow it draws ends left of the name, the name ends a
/// margin short of the preset combo, and the combo a margin short of the ✕.
pub proof fn lemma_device_row_parts_never_overlap(row: Rect, index: int, count: int)
    requires
        in_range(row),
        0 <= index < count,
    ensures
        0 < index && index + 1 < count ==> right(square_at(row, up_x(index, count))) <= square_at(
            row,
            down_x(index, count),
        ).x,
        0 < index ==> right(square_at(row, up_x(index, count))) <= device_name_of(row).x,
        index + 1 < count ==> right(square_at(row, down_x(index, count))) <= device_name_of(row).x,
        right(device_name_of(row)) + MARGIN == preset_combo_of(row).x,
        right(preset_combo_of(row)) + MARGIN == remove_of(row).x,
{
}

} // verus!
