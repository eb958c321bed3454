//! The secondary windows: the shared chrome, the changelog pane, message boxes and toasts, the
//! preset import/export flow and the Settings window.
//!
//! Every dialog is a state machine its owner keeps: a frame hands the dialog its state and what
//! the pointer and keyboard did, and gets back the list of actions the user asked for. Nothing
//! here blocks, writes a file or talks to the audio engine.

pub mod changelog;
pub mod message;
pub mod presets;
pub mod settings;

use vstd::prelude::*;
use crate::layout::{Rect, in_range};
use vstd::std_specs::cmp::PartialEqSpec;

verus! {

/// What a dialog returns after one frame: the actions the user produced, in order.
#[derive(Debug, Clone, PartialEq, Eq)]
pub struct DialogResponse<A> {
    pub actions: Vec<A>,
}

impl<A> DialogResponse<A> {
    /// A response holding no action.
    pub fn new() -> (r: Self)
        ensures
            r.actions@ == Seq::<A>::empty(),
    {
        DialogResponse { actions: Vec::new() }
    }

    /// Record an action after the ones already there.
    pub fn push(&mut self, action: A)
        ensures
            final(self).actions@ == old(self).actions@.push(action),
    {
        self.actions.push(action);
    }

    /// Record `action` when `condition` holds — the shape almost every button site wants.
    pub fn push_if(&mut self, condition: bool, action: A)
        ensures
            final(self).actions@ == if condition {
                old(self).actions@.push(action)
            } else {
                old(self).actions@
            },
    {
        if condition {
            self.actions.push(action);
        }
    }

    /// Whether nothing was recorded.
    pub fn is_empty(&self) -> (b: bool)
        ensures
            b == (self.actions@.len() == 0),
    {
        self.actions.len() == 0
    }

    /// How many actions were recorded.
    pub fn len(&self) -> (n: usize)
        ensures
            n == self.actions@.len(),
    {
        self.actions.len()
    }
}

impl<A: PartialEq> DialogResponse<A> {
    /// Whether an action equal to `action` was recorded.
    pub fn contains(&self, action: &A) -> (found: bool)
        ensures
            A::obeys_eq_spec() ==> (found == exists|i: int|
                0 <= i < self.actions@.len() && #[trigger] self.actions@[i].eq_spec(action)),
            vstd::laws_eq::obeys_concrete_eq::<A>() ==> (found == self.actions@.contains(*action)),
    {
        let mut i: usize = 0;
        while i < self.actions.len()
            invariant
                i <= self.actions@.len(),
                A::obeys_eq_spec() ==> forall|j: int|
                    0 <= j < i ==> !(#[trigger] self.actions@[j].eq_spec(action)),
            decreases self.actions@.len() - i,
        {
            if self.actions[i] == *action {
                proof {
                    reveal(vstd::laws_eq::obeys_concrete_eq);
                }
                return true;
            }
            i = i + 1;
        }
        proof {
            reveal(vstd::laws_eq::obeys_concrete_eq);
            if vstd::laws_eq::obeys_concrete_eq::<A>() {
                assert forall|j: int| 0 <= j < self.actions@.len() implies self.actions@[j]
                    != *action by {
                    assert(!self.actions@[j].eq_spec(action));
                }
            }
        }
        false
    }
}

impl<A> Default for DialogResponse<A> {
    fn default() -> (r: Self)
        ensures
            r.actions@ == Seq::<A>::empty(),
    {
        DialogResponse { actions: Vec::new() }
    }
}

/// The transparent gutter the shadow is painted in.
pub const SHADOW_WIDTH: i32 = 5;
/// The ✕ button's side; the button is square.
pub const CLOSE_BUTTON_WIDTH: i32 = 15;
/// Radius of a window's rounded corners.
pub const WINDOW_CORNER_RADIUS: i32 = 21;
/// The band the outer-size formula reserves for the title bar.
pub const TITLE_BAR_BAND: i32 = 57;
/// The title-bar component itself is one point shorter.
pub const TITLE_BAR_HEIGHT: i32 = TITLE_BAR_BAND - 1;
/// The wordmark shown by a window with no name.
pub const ICON_WIDTH: i32 = 106;
pub const ICON_HEIGHT: i32 = 15;
/// A *named* window draws the narrow bars logo one point shorter.
pub const TITLE_ICON_HEIGHT: i32 = ICON_HEIGHT - 1;
/// Gap between that logo and the title text.
pub const TITLE_TEXT_GAP: i32 = 2;
/// The normal font: Gilroy Semibold, 17 px. The dialogs' default.
pub const NORMAL_FONT: i32 = 17;
/// The small font: Gilroy Regular, 14 px.
pub const SMALL_FONT: i32 = 14;
/// The title font: Gilroy Bold, 17 px.
pub const TITLE_FONT: i32 = 17;

/// A window's outer size for a content size: the shadow gutter on both sides, and below the
/// content the title bar, the corner allowance and the gutter again.
pub open spec fn outer_of(content: (int, int)) -> (int, int) {
    (
        content.0 + SHADOW_WIDTH * 2,
        content.1 + TITLE_BAR_HEIGHT + WINDOW_CORNER_RADIUS + SHADOW_WIDTH * 2,
    )
}

/// The outer window size for a given content size: `w + 10`, `h + 87`.
pub fn outer_size(content: (i32, i32)) -> (outer: (i32, i32))
    requires
        content.0 <= i32::MAX - 10,
        content.1 <= i32::MAX - 87,
    ensures
        (outer.0 as int, outer.1 as int) == outer_of((content.0 as int, content.1 as int)),
{
    (
        content.0 + SHADOW_WIDTH * 2,
        content.1 + TITLE_BAR_HEIGHT + WINDOW_CORNER_RADIUS + SHADOW_WIDTH * 2,
    )
}

/// The content size [`outer_size`] was given, recovered from the window.
pub fn content_size(outer: (i32, i32)) -> (content: (i32, i32))
    requires
        outer.0 >= i32::MIN + 10,
        outer.1 >= i32::MIN + 87,
    ensures
        outer_of((content.0 as int, content.1 as int)) == (outer.0 as int, outer.1 as int),
{
    (
        outer.0 - SHADOW_WIDTH * 2,
        outer.1 - TITLE_BAR_HEIGHT - WINDOW_CORNER_RADIUS - SHADOW_WIDTH * 2,
    )
}

/// The title bar of a dialog whose window is `outer`: inset past the rounded corner and the
/// shadow on both sides, the shadow's width down from the top.
pub open spec fn title_bar_of(outer: Rect) -> Rect {
    let inset = WINDOW_CORNER_RADIUS + SHADOW_WIDTH;
    Rect {
        x: (outer.x + inset) as i32,
        y: (outer.y + SHADOW_WIDTH) as i32,
        w: (outer.w - inset * 2) as i32,
        h: TITLE_BAR_HEIGHT,
    }
}

/// A dialog's title bar.
pub fn title_bar_rect(outer: Rect) -> (r: Rect)
    requires
        in_range(outer),
    ensures
        r == title_bar_of(outer),
{
    let inset: i32 = WINDOW_CORNER_RADIUS + SHADOW_WIDTH;
    Rect { x: outer.x + inset, y: outer.y + SHADOW_WIDTH, w: outer.w - inset * 2, h: TITLE_BAR_HEIGHT }
}

/// A dialog's content: one point under the title bar, at the shadow's inset, of the size the
/// window was made for.
pub fn content_rect(outer: Rect) -> (r: Rect)
    requires
        in_range(outer),
    ensures
        r.x == outer.x + SHADOW_WIDTH,
        r.y == title_bar_of(outer).y + TITLE_BAR_HEIGHT + 1,
        outer_of((r.w as int, r.h as int)) == (outer.w as int, outer.h as int),
{
    let bar = title_bar_rect(outer);
    let size = content_size((outer.w, outer.h));
    Rect { x: outer.x + SHADOW_WIDTH, y: bar.y + bar.h + 1, w: size.0, h: size.1 }
}

/// The window's visible frame: the window less the shadow gutter all round.
pub fn frame_rect(outer: Rect) -> (r: Rect)
    requires
        in_range(outer),
    ensures
        r == (Rect {
            x: (outer.x + SHADOW_WIDTH) as i32,
            y: (outer.y + SHADOW_WIDTH) as i32,
            w: (outer.w - SHADOW_WIDTH * 2) as i32,
            h: (outer.h - SHADOW_WIDTH * 2) as i32,
        }),
{
    Rect {
        x: outer.x + SHADOW_WIDTH,
        y: outer.y + SHADOW_WIDTH,
        w: outer.w - SHADOW_WIDTH * 2,
        h: outer.h - SHADOW_WIDTH * 2,
    }
}

/// The borderless window frame every dialog sits in.
///
/// With a title for the three big dialogs and without one for the message boxes, which is what
/// selects between the narrow bars logo plus title text and the full wordmark.
pub struct DialogChrome<'a> {
    title: Option<&'a str>,
    draggable: bool,
    shadow: bool,
}

/// What a [`DialogChrome`] draws: its title, and whether the bar drags and the frame casts a
/// shadow.
pub struct DialogChromeView {
    pub title: Option<Seq<char>>,
    pub draggable: bool,
    pub shadow: bool,
}

impl<'a> View for DialogChrome<'a> {
    type V = DialogChromeView;

    closed spec fn view(&self) -> DialogChromeView {
        DialogChromeView {
            title: match self.title {
                Some(t) => Some(t@),
                None => None,
            },
            draggable: self.draggable,
            shadow: self.shadow,
        }
    }
}

impl<'a> DialogChrome<'a> {
    /// A window with no name: the wordmark fills the left of the title bar.
    pub fn new() -> (c: Self)
        ensures
            c@.title is None,
            c@.draggable,
            c@.shadow,
    {
        DialogChrome { title: None, draggable: true, shadow: true }
    }

    /// A named window: narrow logo, then the title.
    pub fn titled(title: &'a str) -> (c: Self)
        ensures
            c@.title == Some(title@),
            c@.draggable,
            c@.shadow,
    {
        DialogChrome { title: Some(title), draggable: true, shadow: true }
    }

    /// Whether a press on the title bar reports a drag. Off inside a modal, where there is no
    /// toplevel to move.
    pub fn draggable(self, draggable: bool) -> (c: Self)
        ensures
            c@.title == self@.title,
            c@.draggable == draggable,
            c@.shadow == self@.shadow,
    {
        DialogChrome { title: self.title, draggable, shadow: self.shadow }
    }

    /// Whether to paint the drop shadow.
    pub fn shadow(self, shadow: bool) -> (c: Self)
        ensures
            c@.title == self@.title,
            c@.draggable == self@.draggable,
            c@.shadow == shadow,
    {
        DialogChrome { title: self.title, draggable: self.draggable, shadow }
    }

    /// The title to draw, if any.
    pub fn title(&self) -> (t: Option<&'a str>)
        ensures
            match t {
                Some(s) => self@.title == Some(s@),
                None => self@.title is None,
            },
    {
        self.title
    }

    /// Whether the frame casts its shadow.
    pub fn has_shadow(&self) -> (b: bool)
        ensures
            b == self@.shadow,
    {
        self.shadow
    }

    /// Whether a drag that began on the bar is reported: only when the bar is draggable.
    pub fn drag_started(&self, pressed_on_bar: bool) -> (b: bool)
        ensures
            b == (self@.draggable && pressed_on_bar),
    {
        self.draggable && pressed_on_bar
    }
}

/// A text button: rounded fill, label in the highlighted text colour.
pub struct TextButton<'a> {
    label: &'a str,
    enabled: bool,
}

/// What a [`TextButton`] draws: its label and whether it reacts.
pub struct TextButtonView {
    pub label: Seq<char>,
    pub enabled: bool,
}

impl<'a> View for TextButton<'a> {
    type V = TextButtonView;

    closed spec fn view(&self) -> TextButtonView {
        TextButtonView { label: self.label@, enabled: self.enabled }
    }
}

impl<'a> TextButton<'a> {
    /// An enabled button.
    pub fn new(label: &'a str) -> (b: Self)
        ensures
            b@.label == label@,
            b@.enabled,
    {
        TextButton { label, enabled: true }
    }

    /// A disabled button keeps its colour at half alpha and does not react to the pointer.
    pub fn enabled(self, enabled: bool) -> (b: Self)
        ensures
            b@.label == self@.label,
            b@.enabled == enabled,
    {
        TextButton { label: self.label, enabled }
    }

    /// The label to draw.
    pub fn label(&self) -> (l: &'a str)
        ensures
            l@ == self@.label,
    {
        self.label
    }

    /// Whether the button reacts.
    pub fn is_enabled(&self) -> (b: bool)
        ensures
            b == self@.enabled,
    {
        self.enabled
    }

    /// Whether a press counts as a click: a disabled button ignores the pointer.
    pub fn clicked(&self, pressed: bool) -> (b: bool)
        ensures
            b == (self@.enabled && pressed),
    {
        self.enabled && pressed
    }
}

} // verus!
