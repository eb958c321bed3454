//! Pixel geometry of the main window, in whole points.
//!
//! Coordinates are window-local: the origin is the window's top-left corner. Nothing reflows;
//! every control has a fixed rectangle.

pub mod lite;
pub mod pro;

use vstd::prelude::*;
use crate::model::ViewMode;

verus! {

/// Radius of the window's rounded corners.
pub const WINDOW_CORNER_RADIUS: i32 = 21;
/// Radius of the inner content panel.
pub const PANEL_CORNER_RADIUS: i32 = 8;
/// The drop-shadow width around the frameless window.
pub const SHADOW_WIDTH: i32 = 5;
/// Height of the custom title bar.
pub const TITLE_BAR_HEIGHT: i32 = 56;
/// The rule under the title bar.
pub const TITLE_BAR_DIVIDER_HEIGHT: i32 = 1;
/// Horizontal inset of the title bar from the window edge.
pub const TITLE_BAR_INSET: i32 = 21;
/// The pad below the content.
pub const BOTTOM_PAD: i32 = 20;

/// An axis-aligned rectangle: its top-left corner and its size.
#[derive(Debug, Clone, Copy, PartialEq, Eq, Structural)]
pub struct Rect {
    pub x: i32,
    pub y: i32,
    pub w: i32,
    pub h: i32,
}

/// How far from the origin a coordinate or a size may lie: half the 32-bit range, less room for
/// the fixed offsets (under 2048 points) the geometry adds, so that a rectangle's far edge and an
/// offset from it are still whole 32-bit numbers.
pub const COORD_LIMIT: i32 = 1073739776;

/// Whether a rectangle lies in the range the geometry works in.
pub open spec fn in_range(r: Rect) -> bool {
    &&& -COORD_LIMIT <= r.x <= COORD_LIMIT
    &&& -COORD_LIMIT <= r.y <= COORD_LIMIT
    &&& -COORD_LIMIT <= r.w <= COORD_LIMIT
    &&& -COORD_LIMIT <= r.h <= COORD_LIMIT
}

/// A rectangle whose left edge may lie halfway between two whole points, as a control centred
/// in an odd amount of room does: it starts `x_halves / 2` points from the origin, and its top
/// and its size are whole points.
#[derive(Debug, Clone, Copy, PartialEq, Eq, Structural)]
pub struct CentredRect {
    pub x_halves: i64,
    pub y: i32,
    pub w: i32,
    pub h: i32,
}

/// The right edge of a rectangle.
pub open spec fn right(r: Rect) -> int {
    r.x + r.w
}

/// The bottom edge of a rectangle.
pub open spec fn bottom(r: Rect) -> int {
    r.y + r.h
}

/// Whether `inner` lies within `outer`, edges included.
pub open spec fn contains(outer: Rect, inner: Rect) -> bool {
    &&& outer.x <= inner.x
    &&& outer.y <= inner.y
    &&& right(inner) <= right(outer)
    &&& bottom(inner) <= bottom(outer)
}

/// Whether two rectangles share no interior point.
pub open spec fn disjoint(a: Rect, b: Rect) -> bool {
    ||| right(a) <= b.x
    ||| right(b) <= a.x
    ||| bottom(a) <= b.y
    ||| bottom(b) <= a.y
}

impl Rect {
    /// The rectangle at `(x, y)` of size `w` × `h`.
    pub fn new(x: i32, y: i32, w: i32, h: i32) -> (r: Rect)
        ensures
            r.x == x && r.y == y && r.w == w && r.h == h,
    {
        Rect { x, y, w, h }
    }

    /// Whether `inner` lies within this rectangle.
    pub fn contains_rect(&self, inner: &Rect) -> (b: bool)
        ensures
            b == contains(*self, *inner),
    {
        let (sx, sy, sw, sh) = (self.x as i64, self.y as i64, self.w as i64, self.h as i64);
        let (ix, iy, iw, ih) = (inner.x as i64, inner.y as i64, inner.w as i64, inner.h as i64);
        sx <= ix && sy <= iy && ix + iw <= sx + sw && iy + ih <= sy + sh
    }
}

/// A title-bar button: where its artwork sits and how big it is.
#[derive(Debug, Clone, Copy, PartialEq, Eq)]
pub struct ChromeButton {
    pub pos: (i32, i32),
    pub size: (i32, i32),
}

/// The rectangle of a title-bar button.
pub open spec fn button_rect(b: ChromeButton) -> Rect {
    Rect { x: b.pos.0, y: b.pos.1, w: b.size.0, h: b.size.1 }
}

impl ChromeButton {
    /// The button's rectangle.
    pub fn rect(self) -> (r: Rect)
        ensures
            r == button_rect(self),
    {
        Rect { x: self.pos.0, y: self.pos.1, w: self.size.0, h: self.size.1 }
    }
}

/// The title-bar buttons of one window.
#[derive(Debug, Clone, Copy, PartialEq, Eq)]
pub struct Chrome {
    /// The wordmark.
    pub logo: ChromeButton,
    /// The hamburger menu.
    pub menu: ChromeButton,
    /// The power toggle.
    pub power: ChromeButton,
    /// Switch between the two windows.
    pub flip: ChromeButton,
    /// Hide to the tray.
    pub minimize: ChromeButton,
    pub close: ChromeButton,
}

/// The buttons of a title bar, in paint order; the wordmark is not one.
pub open spec fn chrome_buttons(c: Chrome) -> Seq<ChromeButton> {
    seq![c.menu, c.power, c.flip, c.minimize, c.close]
}

/// The title-bar layout of each window: the left-hand buttons are shared, the right-hand ones
/// follow the window's width.
pub open spec fn chrome_of(view: ViewMode) -> Chrome {
    match view {
        ViewMode::Pro => Chrome {
            logo: ChromeButton { pos: (21, 21), size: (106, 15) },
            menu: ChromeButton { pos: (142, 16), size: (24, 24) },
            power: ChromeButton { pos: (868, 16), size: (24, 24) },
            flip: ChromeButton { pos: (912, 15), size: (26, 26) },
            minimize: ChromeButton { pos: (958, 13), size: (26, 30) },
            close: ChromeButton { pos: (1004, 20), size: (15, 15) },
        },
        ViewMode::Lite => Chrome {
            logo: ChromeButton { pos: (21, 21), size: (106, 15) },
            menu: ChromeButton { pos: (142, 16), size: (24, 24) },
            power: ChromeButton { pos: (380, 16), size: (24, 24) },
            flip: ChromeButton { pos: (424, 16), size: (24, 24) },
            minimize: ChromeButton { pos: (468, 13), size: (26, 30) },
            close: ChromeButton { pos: (514, 20), size: (15, 15) },
        },
    }
}

impl Chrome {
    /// The chrome of a window.
    pub fn of(view: ViewMode) -> (c: Chrome)
        ensures
            c == chrome_of(view),
    {
        match view {
            ViewMode::Pro => Chrome {
                logo: ChromeButton { pos: (21, 21), size: (106, 15) },
                menu: ChromeButton { pos: (142, 16), size: (24, 24) },
                power: ChromeButton { pos: (868, 16), size: (24, 24) },
                flip: ChromeButton { pos: (912, 15), size: (26, 26) },
                minimize: ChromeButton { pos: (958, 13), size: (26, 30) },
                close: ChromeButton { pos: (1004, 20), size: (15, 15) },
            },
            ViewMode::Lite => Chrome {
                logo: ChromeButton { pos: (21, 21), size: (106, 15) },
                menu: ChromeButton { pos: (142, 16), size: (24, 24) },
                power: ChromeButton { pos: (380, 16), size: (24, 24) },
                flip: ChromeButton { pos: (424, 16), size: (24, 24) },
                minimize: ChromeButton { pos: (468, 13), size: (26, 30) },
                close: ChromeButton { pos: (514, 20), size: (15, 15) },
            },
        }
    }

    /// Every button in paint order, so a hit test can walk them.
    pub fn buttons(&self) -> (b: [ChromeButton; 5])
        ensures
            b@ == chrome_buttons(*self),
    {
        let b = [self.menu, self.power, self.flip, self.minimize, self.close];
        assert(b@ =~= chrome_buttons(*self));
        b
    }
}

/// The outer size of each window.
pub open spec fn window_size_of(view: ViewMode) -> (i32, i32) {
    match view {
        ViewMode::Pro => pro::WINDOW_SIZE,
        ViewMode::Lite => lite::WINDOW_SIZE,
    }
}

/// The outer window size for a view.
pub fn window_size(view: ViewMode) -> (s: (i32, i32))
    ensures
        s == window_size_of(view),
{
    match view {
        ViewMode::Pro => pro::WINDOW_SIZE,
        ViewMode::Lite => lite::WINDOW_SIZE,
    }
}

/// Each window is as tall as its title bar, the rule under it, its content and the bottom pad,
/// and as wide as its content.
pub proof fn lemma_window_is_the_sum_of_its_parts(view: ViewMode)
    ensures
        window_size_of(view).1 == TITLE_BAR_HEIGHT + TITLE_BAR_DIVIDER_HEIGHT + match view {
            ViewMode::Pro => pro::CONTENT_HEIGHT,
            ViewMode::Lite => lite::CONTENT_HEIGHT,
        } + BOTTOM_PAD,
        window_size_of(view).0 == match view {
            ViewMode::Pro => pro::CONTENT_WIDTH,
            ViewMode::Lite => lite::CONTENT_WIDTH,
        },
{
}

/// Every title-bar button of either window lies inside its window's width and below the top of
/// the bar, above the bar's bottom edge, and no two of them overlap.
pub proof fn lemma_chrome_buttons_stay_in_their_bar(view: ViewMode)
    ensures
        forall|i: int|
            0 <= i < 5 ==> {
                let r = button_rect(#[trigger] chrome_buttons(chrome_of(view))[i]);
                &&& 0 <= r.x
                &&& 0 <= r.y
                &&& right(r) <= window_size_of(view).0
                &&& bottom(r) <= TITLE_BAR_HEIGHT
            },
        forall|i: int, j: int|
            0 <= i < j < 5 ==> disjoint(
                button_rect(#[trigger] chrome_buttons(chrome_of(view))[i]),
                button_rect(#[trigger] chrome_buttons(chrome_of(view))[j]),
            ),
{
    let b = chrome_buttons(chrome_of(view));
    assert(b[0] == chrome_of(view).menu);
    assert(b[1] == chrome_of(view).power);
    assert(b[2] == chrome_of(view).flip);
    assert(b[3] == chrome_of(view).minimize);
    assert(b[4] == chrome_of(view).close);
}

} // verus!
