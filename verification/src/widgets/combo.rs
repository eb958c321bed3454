//! The drop-down: its labels, its outline, its text colour, the boxes inside the closed control
//! and the rows of its menu.

use vstd::prelude::*;
use crate::layout::Rect;
use crate::text::{push_str, string_of};
use crate::theme::{FxColor, Palette, Rgba, rgb_of, unpack};

verus! {

/// Width of the box the arrow is fitted into.
pub const ARROW_WIDTH: i32 = 12;
/// Distance from the right edge to the arrow box on a wide combo.
pub const ARROW_MARGIN: i32 = 32;
/// The same distance on a combo no wider than [`NARROW_WIDTH`].
pub const NARROW_ARROW_MARGIN: i32 = 24;
/// The width at or below which the arrow moves in.
pub const NARROW_WIDTH: i32 = 150;
/// Left edge of the text inside the box.
pub const TEXT_LEFT: i32 = 5;
/// How far the text stops short of the right edge: wide enough to clear the arrow whichever
/// margin is in force.
pub const TEXT_RIGHT_INSET: i32 = 37;
/// The text's inset at the top and at the bottom.
pub const TEXT_Y_INSET: i32 = 1;
/// Left edge of the placeholder, which is not the text's left edge.
pub const PLACEHOLDER_LEFT: i32 = 10;
/// The font size of a short combo.
pub const SMALL_FONT: i32 = 14;
/// The font size of a tall one.
pub const FONT: i32 = 17;
/// The height at or below which the font drops to [`SMALL_FONT`].
pub const SMALL_FONT_MAX_HEIGHT: i32 = 30;

/// The closed box's font size for a box `height` points tall.
pub fn font_size(height: i32) -> (s: i32)
    ensures
        s == if height <= SMALL_FONT_MAX_HEIGHT { SMALL_FONT } else { FONT },
{
    if height <= SMALL_FONT_MAX_HEIGHT {
        SMALL_FONT
    } else {
        FONT
    }
}

/// How far in from the right edge the arrow box starts in a box `width` points wide.
pub open spec fn arrow_margin(width: int) -> int {
    if width <= NARROW_WIDTH {
        NARROW_ARROW_MARGIN as int
    } else {
        ARROW_MARGIN as int
    }
}

/// The box the arrow artwork is fitted into: [`ARROW_WIDTH`] wide and as tall as the combo,
/// starting [`arrow_margin`] in from the combo's right edge.
pub fn arrow_box(rect: Rect) -> (r: Rect)
    requires
        i32::MIN + ARROW_MARGIN <= rect.x + rect.w <= i32::MAX,
    ensures
        r == (Rect {
            x: (rect.x + rect.w - arrow_margin(rect.w as int)) as i32,
            y: rect.y,
            w: ARROW_WIDTH,
            h: rect.h,
        }),
{
    let margin: i32 = if rect.w <= NARROW_WIDTH { NARROW_ARROW_MARGIN } else { ARROW_MARGIN };
    Rect { x: rect.x + rect.w - margin, y: rect.y, w: ARROW_WIDTH, h: rect.h }
}

/// The label's rectangle: [`TEXT_LEFT`] in from the left, [`TEXT_RIGHT_INSET`] short of the
/// right and [`TEXT_Y_INSET`] in from the top and the bottom.
pub fn text_box(rect: Rect) -> (r: Rect)
    requires
        rect.x + TEXT_LEFT <= i32::MAX,
        rect.y + TEXT_Y_INSET <= i32::MAX,
        i32::MIN + TEXT_LEFT + TEXT_RIGHT_INSET <= rect.w,
        i32::MIN + TEXT_Y_INSET * 2 <= rect.h,
    ensures
        r == (Rect {
            x: (rect.x + TEXT_LEFT) as i32,
            y: (rect.y + TEXT_Y_INSET) as i32,
            w: (rect.w - TEXT_LEFT - TEXT_RIGHT_INSET) as i32,
            h: (rect.h - TEXT_Y_INSET * 2) as i32,
        }),
{
    Rect {
        x: rect.x + TEXT_LEFT,
        y: rect.y + TEXT_Y_INSET,
        w: rect.w - TEXT_LEFT - TEXT_RIGHT_INSET,
        h: rect.h - TEXT_Y_INSET * 2,
    }
}

/// The height of one menu row: the closed box's text area, and never less than a point.
pub fn popup_row_height(combo_height: i32) -> (h: i32)
    requires
        i32::MIN + TEXT_Y_INSET * 2 <= combo_height,
    ensures
        h == if combo_height - TEXT_Y_INSET * 2 >= 1 { combo_height - TEXT_Y_INSET * 2 } else { 1 },
{
    let h: i32 = combo_height - TEXT_Y_INSET * 2;
    if h >= 1 { h } else { 1 }
}

/// The height of a separator row: a tenth of a row, in whole points rounded down, and never less
/// than a point.
pub fn popup_separator_height(row_height: i32) -> (h: i32)
    requires
        row_height >= 0,
    ensures
        h == if row_height / 10 >= 1 { row_height / 10 } else { 1 },
{
    let tenth: i32 = row_height / 10;
    if tenth >= 1 { tenth } else { 1 }
}

/// What marks a preset with unsaved changes: a space, then an asterisk.
pub const MODIFIED_SUFFIX: &'static str = " *";

/// The focus outline's alpha: a fifth of full strength.
pub const FOCUS_OUTLINE_ALPHA: u8 = 51;

/// A preset's combo label: its name, plus `" *"` while it has unsaved changes.
pub open spec fn preset_label_of(name: Seq<char>, modified: bool) -> Seq<char> {
    if modified {
        name + MODIFIED_SUFFIX@
    } else {
        name
    }
}

/// A preset's combo label.
pub fn preset_label(name: &str, modified: bool) -> (s: String)
    ensures
        s@ == preset_label_of(name@, modified),
{
    let mut v: Vec<char> = Vec::new();
    push_str(&mut v, name);
    if modified {
        push_str(&mut v, MODIFIED_SUFFIX);
    }
    string_of(&v)
}

/// The outline around the closed box. Keyboard focus wins; otherwise a box that has reported an
/// error is outlined in the track colour, one that has reported none in the default fill, and one
/// that never reported anything in its own background, which makes the outline invisible.
pub fn outline_colour(palette: Palette, error: Option<bool>, focused: bool) -> (c: Rgba)
    ensures
        c == if focused {
            Rgba { a: FOCUS_OUTLINE_ALPHA, ..unpack(rgb_of(palette@, FxColor::SliderHighlight)) }
        } else {
            match error {
                Some(true) => unpack(rgb_of(palette@, FxColor::SliderTrack)),
                Some(false) => unpack(rgb_of(palette@, FxColor::DefaultFill)),
                None => unpack(rgb_of(palette@, FxColor::ComboBoxBackground)),
            }
        },
{
    if focused {
        return palette.color_with_alpha(FxColor::SliderHighlight, FOCUS_OUTLINE_ALPHA);
    }
    match error {
        Some(true) => palette.color(FxColor::SliderTrack),
        Some(false) => palette.color(FxColor::DefaultFill),
        None => palette.color(FxColor::ComboBoxBackground),
    }
}

/// The closed box's text colour: highlighted while the pointer is over an enabled box.
pub fn text_colour(palette: Palette, enabled: bool, hovered: bool) -> (c: Rgba)
    ensures
        c == if enabled && hovered {
            unpack(rgb_of(palette@, FxColor::HighlightedText))
        } else {
            unpack(rgb_of(palette@, FxColor::DefaultText))
        },
{
    if enabled && hovered {
        palette.color(FxColor::HighlightedText)
    } else {
        palette.color(FxColor::DefaultText)
    }
}

/// A section title drawn above one item of the menu.
#[derive(Debug, Clone, Copy, PartialEq, Eq)]
pub struct SectionHeader<'a> {
    /// The index of the first item under the title.
    pub before: usize,
    /// The title.
    pub label: &'a str,
}

impl<'a> SectionHeader<'a> {
    /// A title above item `before`.
    pub fn new(before: usize, label: &'a str) -> (h: Self)
        ensures
            h.before == before,
            h.label == label,
    {
        SectionHeader { before, label }
    }
}

/// One row of the open menu.
#[derive(Debug, Clone, Copy, PartialEq, Eq, Structural)]
pub enum PopupRow {
    /// The one-point rule between two runs of items.
    Separator,
    /// A section title: the position of its header in the caller's list.
    Header(usize),
    /// An item: its index in the caller's list, and whether it is the selected one.
    Item(usize, bool),
}

/// `rows` followed by a title row for each of the first `k` headers that stands above item
/// `index`, in the headers' order.
pub open spec fn push_titles(
    rows: Seq<PopupRow>,
    headers: Seq<SectionHeader>,
    index: int,
    k: int,
) -> Seq<PopupRow>
    decreases k,
{
    if k <= 0 {
        rows
    } else {
        let before = push_titles(rows, headers, index, k - 1);
        if headers[k - 1].before == index {
            before.push(PopupRow::Header((k - 1) as usize))
        } else {
            before
        }
    }
}

/// Whether item `index` is the selected one.
pub open spec fn ticked(selected: Option<usize>, index: int) -> bool {
    match selected {
        Some(s) => s == index,
        None => false,
    }
}

/// `rows` followed by the rule, when it stands above item `index`.
pub open spec fn push_rule(rows: Seq<PopupRow>, separator_before: Option<usize>, index: int) -> Seq<
    PopupRow,
> {
    match separator_before {
        Some(s) => if s == index {
            rows.push(PopupRow::Separator)
        } else {
            rows
        },
        None => rows,
    }
}

/// The menu's rows for its first `n` items: above each item, first the rule when it stands
/// there, then every title that stands there, then the item itself.
pub open spec fn menu_rows(
    n: int,
    selected: Option<usize>,
    separator_before: Option<usize>,
    headers: Seq<SectionHeader>,
) -> Seq<PopupRow>
    decreases n,
{
    if n <= 0 {
        Seq::empty()
    } else {
        let i = n - 1;
        push_titles(
            push_rule(menu_rows(i, selected, separator_before, headers), separator_before, i),
            headers,
            i,
            headers.len() as int,
        ).push(PopupRow::Item(i as usize, ticked(selected, i)))
    }
}

/// The rows of a menu of `item_count` items. Titles and the rule are rows of their own, so an
/// item keeps its index whatever is drawn above it; a title or a rule that stands above no item
/// is not drawn.
pub fn popup_rows(
    item_count: usize,
    selected: Option<usize>,
    separator_before: Option<usize>,
    headers: &[SectionHeader],
) -> (rows: Vec<PopupRow>)
    ensures
        rows@ == menu_rows(item_count as int, selected, separator_before, headers@),
{
    let mut rows: Vec<PopupRow> = Vec::new();
    let mut i: usize = 0;
    while i < item_count
        invariant
            i <= item_count,
            rows@ == menu_rows(i as int, selected, separator_before, headers@),
        decreases item_count - i,
    {
        match separator_before {
            Some(s) => if s == i {
                rows.push(PopupRow::Separator);
            },
            None => {},
        }
        let ghost ruled = rows@;
        let mut k: usize = 0;
        while k < headers.len()
            invariant
                k <= headers@.len(),
                rows@ == push_titles(ruled, headers@, i as int, k as int),
            decreases headers@.len() - k,
        {
            if headers[k].before == i {
                rows.push(PopupRow::Header(k));
            }
            k += 1;
        }
        let tick = match selected {
            Some(s) => s == i,
            None => false,
        };
        rows.push(PopupRow::Item(i, tick));
        i += 1;
    }
    rows
}

/// The item indices a sequence of rows holds, in order.
pub open spec fn items_of(rows: Seq<PopupRow>) -> Seq<usize>
    decreases rows.len(),
{
    if rows.len() == 0 {
        Seq::empty()
    } else {
        let before = items_of(rows.drop_last());
        match rows.last() {
            PopupRow::Item(i, _) => before.push(i),
            _ => before,
        }
    }
}

/// Whether a row of a menu of `n` items belongs there: the rule and every title stand above an
/// item of the menu, and an item is ticked exactly when it is the selected one.
pub open spec fn row_belongs(
    row: PopupRow,
    n: int,
    selected: Option<usize>,
    separator_before: Option<usize>,
    headers: Seq<SectionHeader>,
) -> bool {
    match row {
        PopupRow::Separator => separator_before matches Some(s) && s < n,
        PopupRow::Header(k) => k < headers.len() && headers[k as int].before < n,
        PopupRow::Item(i, t) => i < n && t == ticked(selected, i as int),
    }
}

/// Appending a non-item row leaves the items as they were.
proof fn lemma_items_of_push_other(rows: Seq<PopupRow>, row: PopupRow)
    requires
        !(row is Item),
    ensures
        items_of(rows.push(row)) == items_of(rows),
{
    assert(rows.push(row).drop_last() =~= rows);
}

/// The titles pushed above one item extend the rows with title rows only, each for a header that
/// stands above that item.
proof fn lemma_titles_extend(rows: Seq<PopupRow>, headers: Seq<SectionHeader>, index: int, k: int)
    requires
        0 <= k <= headers.len() <= usize::MAX,
    ensures
        push_titles(rows, headers, index, k).len() >= rows.len(),
        forall|j: int|
            0 <= j < rows.len() ==> #[trigger] push_titles(rows, headers, index, k)[j] == rows[j],
        forall|j: int|
            rows.len() <= j < push_titles(rows, headers, index, k).len() ==> (#[trigger] push_titles(
                rows,
                headers,
                index,
                k,
            )[j] matches PopupRow::Header(h) && h < headers.len() && headers[h as int].before
                == index),
        items_of(push_titles(rows, headers, index, k)) == items_of(rows),
    decreases k,
{
    if k > 0 {
        lemma_titles_extend(rows, headers, index, k - 1);
        let before = push_titles(rows, headers, index, k - 1);
        if headers[k - 1].before == index {
            lemma_items_of_push_other(before, PopupRow::Header((k - 1) as usize));
        }
    }
}

/// Titles and the rule never shift an item: the menu's items are its items in their own order,
/// each under its own index and ticked exactly when it is the selected one, and every title and
/// the rule stand above an item of the menu, so one that would stand past its end is not drawn.
pub proof fn lemma_menu_rows_keep_item_indices(
    item_count: usize,
    selected: Option<usize>,
    separator_before: Option<usize>,
    headers: Seq<SectionHeader>,
)
    requires
        headers.len() <= usize::MAX,
    ensures
        items_of(menu_rows(item_count as int, selected, separator_before, headers)) =~= Seq::new(
            item_count as nat,
            |i: int| i as usize,
        ),
        forall|j: int|
            0 <= j < menu_rows(item_count as int, selected, separator_before, headers).len()
                ==> row_belongs(
                #[trigger] menu_rows(item_count as int, selected, separator_before, headers)[j],
                item_count as int,
                selected,
                separator_before,
                headers,
            ),
    decreases item_count,
{
    if item_count > 0 {
        let n = item_count as int;
        let i = n - 1;
        lemma_menu_rows_keep_item_indices((item_count - 1) as usize, selected, separator_before, headers);
        let prev = menu_rows(i, selected, separator_before, headers);
        let ruled = push_rule(prev, separator_before, i);
        assert(items_of(ruled) == items_of(prev)) by {
            if separator_before == Some(i as usize) {
                lemma_items_of_push_other(prev, PopupRow::Separator);
            }
        }
        assert forall|j: int| 0 <= j < ruled.len() implies row_belongs(
            #[trigger] ruled[j],
            n,
            selected,
            separator_before,
            headers,
        ) by {
            if j < prev.len() {
                assert(row_belongs(prev[j], i, selected, separator_before, headers));
            }
        }
        let titled = push_titles(ruled, headers, i, headers.len() as int);
        lemma_titles_extend(ruled, headers, i, headers.len() as int);
        assert forall|j: int| 0 <= j < titled.len() implies row_belongs(
            #[trigger] titled[j],
            n,
            selected,
            separator_before,
            headers,
        ) by {
            if j < ruled.len() {
                assert(titled[j] == ruled[j]);
            }
        }
        let rows = titled.push(PopupRow::Item(i as usize, ticked(selected, i)));
        assert(rows.drop_last() =~= titled);
        assert(menu_rows(n, selected, separator_before, headers) == rows);
        assert(items_of(rows) =~= Seq::new(item_count as nat, |k: int| k as usize));
    }
}

/// The positions of the first `k` headers that stand above one of the first `item_count` items.
pub open spec fn shown_titles(headers: Seq<SectionHeader>, item_count: int, k: int) -> Seq<usize>
    decreases k,
{
    if k <= 0 {
        Seq::empty()
    } else {
        let before = shown_titles(headers, item_count, k - 1);
        if headers[k - 1].before < item_count {
            before.push((k - 1) as usize)
        } else {
            before
        }
    }
}

/// The headers the menu draws, by position: those that stand above an item. A menu is as wide as
/// its widest line, and these are the titles that count.
pub fn drawn_headers(headers: &[SectionHeader], item_count: usize) -> (shown: Vec<usize>)
    ensures
        shown@ == shown_titles(headers@, item_count as int, headers@.len() as int),
{
    let mut shown: Vec<usize> = Vec::new();
    let mut k: usize = 0;
    while k < headers.len()
        invariant
            k <= headers@.len(),
            shown@ == shown_titles(headers@, item_count as int, k as int),
        decreases headers@.len() - k,
    {
        if headers[k].before < item_count {
            shown.push(k);
        }
        k += 1;
    }
    shown
}

} // verus!
