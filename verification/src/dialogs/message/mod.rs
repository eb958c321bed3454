//! The modal message box and the transient toast.
//!
//! [`MessageBox`] is the 450 × 142 modal with either Yes/No or a single OK. It does not block:
//! its owner keeps the question in its own state, and [`MessageBox::answer`] turns one frame's
//! clicks into the answer, `None` on every frame the user has not given one.
//!
//! [`Toast`] is the rounded bubble that grows to fit up to three lines of text and an optional
//! link.

pub mod toast;

use vstd::prelude::*;
use vstd::string::StrSliceExecFns;
use crate::layout::{CentredRect, Rect, in_range};
use crate::text::{chars_of, line_spans, lines_of, span_texts};

verus! {

/// Which buttons the box offers. `YesNo` is the default.
#[derive(Debug, Clone, Copy, PartialEq, Eq, Hash, Structural)]
pub enum ConfirmStyle {
    YesNo,
    Okay,
}

impl Default for ConfirmStyle {
    fn default() -> (s: Self)
        ensures
            s == ConfirmStyle::YesNo,
    {
        ConfirmStyle::YesNo
    }
}

/// How the user answered.
#[derive(Debug, Clone, Copy, PartialEq, Eq, Hash, Structural)]
pub enum ConfirmChoice {
    /// The Yes button, only reachable from [`ConfirmStyle::YesNo`].
    Yes,
    /// The No button, only reachable from [`ConfirmStyle::YesNo`].
    No,
    /// The OK button, only reachable from [`ConfirmStyle::Okay`].
    Okay,
    /// The window was closed without an answer — the ✕, the backdrop, or Escape. The caller
    /// decides whether that means "No" or "cancel the whole operation".
    Dismissed,
}

/// `MESSAGE_HEIGHT = (24 + 2) * 2` — two lines' worth of box.
pub const MESSAGE_HEIGHT: i32 = 52;
/// The layout's working rect starts 20 points down and is inset 20 on each side.
pub const MARGIN: i32 = 20;
/// Gap between the message and the buttons, and between Yes and No.
pub const GAP: i32 = 20;

/// The message box's content size.
pub const CONTENT_SIZE: (i32, i32) = (450, 142);
/// Its outer window size, from the shared formula.
pub const WINDOW_SIZE: (i32, i32) = (460, 229);
/// A button's size.
pub const BUTTON_SIZE: (i32, i32) = (120, 30);

/// The message's box: the working rect's top [`MESSAGE_HEIGHT`] points.
pub fn message_rect(content: Rect) -> (r: Rect)
    requires
        in_range(content),
    ensures
        r == (Rect {
            x: (content.x + MARGIN) as i32,
            y: (content.y + MARGIN) as i32,
            w: (content.w - MARGIN * 2) as i32,
            h: MESSAGE_HEIGHT,
        }),
{
    Rect { x: content.x + MARGIN, y: content.y + MARGIN, w: content.w - MARGIN * 2, h: MESSAGE_HEIGHT }
}

/// The row the buttons sit on: [`GAP`] points under the message.
pub open spec fn button_top(content: Rect) -> int {
    content.y + MARGIN + MESSAGE_HEIGHT + GAP
}

/// The width of the Yes/No pair with the gap between them.
pub const PAIR_WIDTH: i32 = 260;

/// The Yes button: the Yes/No pair is centred in the content, on a half point when the room
/// left beside the pair is odd.
pub open spec fn yes_of(content: Rect) -> CentredRect {
    CentredRect {
        x_halves: (content.x * 2 + content.w - PAIR_WIDTH) as i64,
        y: button_top(content) as i32,
        w: BUTTON_SIZE.0,
        h: BUTTON_SIZE.1,
    }
}

/// The Yes button.
pub fn yes_rect(content: Rect) -> (r: CentredRect)
    requires
        in_range(content),
    ensures
        r == yes_of(content),
{
    CentredRect {
        x_halves: content.x as i64 * 2 + content.w as i64 - PAIR_WIDTH as i64,
        y: content.y + MARGIN + MESSAGE_HEIGHT + GAP,
        w: BUTTON_SIZE.0,
        h: BUTTON_SIZE.1,
    }
}

/// The No button: a button and a gap right of Yes.
pub fn no_rect(content: Rect) -> (r: CentredRect)
    requires
        in_range(content),
    ensures
        r == (CentredRect {
            x_halves: (yes_of(content).x_halves + (BUTTON_SIZE.0 + GAP) * 2) as i64,
            ..yes_of(content)
        }),
{
    let yes = yes_rect(content);
    CentredRect { x_halves: yes.x_halves + ((BUTTON_SIZE.0 + GAP) * 2) as i64, ..yes }
}

/// The OK button, as [`ok_rect`] states it: centred in the working rect, on a half point when
/// the room beside it is odd, on the buttons' row.
pub open spec fn ok_of(content: Rect) -> CentredRect {
    CentredRect {
        x_halves: ((content.x + MARGIN) * 2 + content.w - MARGIN * 2 - BUTTON_SIZE.0) as i64,
        y: button_top(content) as i32,
        w: BUTTON_SIZE.0,
        h: BUTTON_SIZE.1,
    }
}

/// The OK button.
pub fn ok_rect(content: Rect) -> (r: CentredRect)
    requires
        in_range(content),
    ensures
        r == ok_of(content),
{
    CentredRect {
        x_halves: (content.x as i64 + MARGIN as i64) * 2 + content.w as i64 - (MARGIN * 2) as i64
            - BUTTON_SIZE.0 as i64,
        y: content.y + MARGIN + MESSAGE_HEIGHT + GAP,
        w: BUTTON_SIZE.0,
        h: BUTTON_SIZE.1,
    }
}

/// The buttons of a message box share one row under the message; Yes and No are a gap apart, and
/// OK falls between them, centred on the same point as the pair: the middle of the content.
pub proof fn lemma_message_buttons_share_a_row(content: Rect)
    requires
        in_range(content),
    ensures
        yes_of(content).y == ok_of(content).y,
        yes_of(content).y == content.y + MARGIN + MESSAGE_HEIGHT + GAP,
        PAIR_WIDTH == BUTTON_SIZE.0 * 2 + GAP,
        ok_of(content).x_halves > yes_of(content).x_halves,
        ok_of(content).x_halves + BUTTON_SIZE.0 * 2 < yes_of(content).x_halves + (BUTTON_SIZE.0 + GAP)
            * 2 + BUTTON_SIZE.0 * 2,
        ok_of(content).x_halves + BUTTON_SIZE.0 == content.x * 2 + content.w,
        yes_of(content).x_halves + PAIR_WIDTH == content.x * 2 + content.w,
{
}

/// The answer a box of `style` gives for one frame's clicks.
///
/// A later button overrides an earlier one in drawing order: the ✕, then Yes,
/// then No; a box only reacts to its own buttons.
pub open spec fn confirm_answer(
    style: ConfirmStyle,
    close_clicked: bool,
    yes_clicked: bool,
    no_clicked: bool,
    ok_clicked: bool,
) -> Option<ConfirmChoice> {
    match style {
        ConfirmStyle::YesNo => if no_clicked {
            Some(ConfirmChoice::No)
        } else if yes_clicked {
            Some(ConfirmChoice::Yes)
        } else if close_clicked {
            Some(ConfirmChoice::Dismissed)
        } else {
            None
        },
        ConfirmStyle::Okay => if ok_clicked {
            Some(ConfirmChoice::Okay)
        } else if close_clicked {
            Some(ConfirmChoice::Dismissed)
        } else {
            None
        },
    }
}

/// How a message box answers, for both styles:
/// - the ✕ clicked with none of the box's own buttons answers `Dismissed`;
/// - a frame with no click answers nothing;
/// - `Dismissed` only ever comes from the ✕;
/// - the box's own buttons answer for themselves, No winning over Yes in drawing order;
/// - a box ignores the other style's buttons and never gives the other style's answers.
pub proof fn lemma_a_box_answers_with_its_own_buttons_and_its_cross(
    close_clicked: bool,
    yes_clicked: bool,
    no_clicked: bool,
    ok_clicked: bool,
    other_yes: bool,
    other_no: bool,
    other_ok: bool,
)
    ensures
        close_clicked && !yes_clicked && !no_clicked ==> confirm_answer(ConfirmStyle::YesNo, close_clicked,
            yes_clicked, no_clicked, ok_clicked) == Some(ConfirmChoice::Dismissed),
        close_clicked && !ok_clicked ==> confirm_answer(ConfirmStyle::Okay, close_clicked, yes_clicked,
            no_clicked, ok_clicked) == Some(ConfirmChoice::Dismissed),
        !close_clicked && !yes_clicked && !no_clicked ==> confirm_answer(ConfirmStyle::YesNo, close_clicked,
            yes_clicked, no_clicked, ok_clicked) is None,
        !close_clicked && !ok_clicked ==> confirm_answer(ConfirmStyle::Okay, close_clicked, yes_clicked,
            no_clicked, ok_clicked) is None,
        forall|style: ConfirmStyle| confirm_answer(style, close_clicked, yes_clicked, no_clicked, ok_clicked)
            == Some(ConfirmChoice::Dismissed) ==> close_clicked,
        no_clicked ==> confirm_answer(ConfirmStyle::YesNo, close_clicked, yes_clicked, no_clicked, ok_clicked)
            == Some(ConfirmChoice::No),
        yes_clicked && !no_clicked ==> confirm_answer(ConfirmStyle::YesNo, close_clicked, yes_clicked,
            no_clicked, ok_clicked) == Some(ConfirmChoice::Yes),
        ok_clicked ==> confirm_answer(ConfirmStyle::Okay, close_clicked, yes_clicked, no_clicked, ok_clicked)
            == Some(ConfirmChoice::Okay),
        confirm_answer(ConfirmStyle::YesNo, close_clicked, yes_clicked, no_clicked, ok_clicked)
            == confirm_answer(ConfirmStyle::YesNo, close_clicked, yes_clicked, no_clicked, other_ok),
        confirm_answer(ConfirmStyle::Okay, close_clicked, yes_clicked, no_clicked, ok_clicked)
            == confirm_answer(ConfirmStyle::Okay, close_clicked, other_yes, other_no, ok_clicked),
        confirm_answer(ConfirmStyle::YesNo, close_clicked, yes_clicked, no_clicked, ok_clicked)
            != Some(ConfirmChoice::Okay),
        confirm_answer(ConfirmStyle::Okay, close_clicked, yes_clicked, no_clicked, ok_clicked)
            != Some(ConfirmChoice::Yes),
        confirm_answer(ConfirmStyle::Okay, close_clicked, yes_clicked, no_clicked, ok_clicked)
            != Some(ConfirmChoice::No),
{
}

/// The modal message box.
pub struct MessageBox<'a> {
    text: &'a str,
    style: ConfirmStyle,
}

/// What a [`MessageBox`] shows: its message and its buttons.
pub struct MessageBoxView {
    pub text: Seq<char>,
    pub style: ConfirmStyle,
}

impl<'a> View for MessageBox<'a> {
    type V = MessageBoxView;

    closed spec fn view(&self) -> MessageBoxView {
        MessageBoxView { text: self.text@, style: self.style }
    }
}

impl<'a> MessageBox<'a> {
    /// A Yes/No box, which is the default.
    pub fn new(text: &'a str) -> (b: Self)
        ensures
            b@.text == text@,
            b@.style == ConfirmStyle::YesNo,
    {
        MessageBox { text, style: ConfirmStyle::YesNo }
    }

    /// A single-button box.
    pub fn ok(text: &'a str) -> (b: Self)
        ensures
            b@.text == text@,
            b@.style == ConfirmStyle::Okay,
    {
        MessageBox { text, style: ConfirmStyle::Okay }
    }

    /// The same box with other buttons.
    pub fn style(self, style: ConfirmStyle) -> (b: Self)
        ensures
            b@.text == self@.text,
            b@.style == style,
    {
        MessageBox { text: self.text, style }
    }

    /// The message, to draw.
    pub fn message(&self) -> (t: &'a str)
        ensures
            t@ == self@.text,
    {
        self.text
    }

    /// Which buttons to draw.
    pub fn buttons(&self) -> (s: ConfirmStyle)
        ensures
            s == self@.style,
    {
        self.style
    }

    /// The answer one frame's clicks give, or `None` while the user has not answered.
    pub fn answer(&self, close_clicked: bool, yes_clicked: bool, no_clicked: bool, ok_clicked: bool) -> (c:
        Option<ConfirmChoice>)
        ensures
            c == confirm_answer(self@.style, close_clicked, yes_clicked, no_clicked, ok_clicked),
    {
        let mut choice = if close_clicked {
            Some(ConfirmChoice::Dismissed)
        } else {
            None
        };
        match self.style {
            ConfirmStyle::YesNo => {
                if yes_clicked {
                    choice = Some(ConfirmChoice::Yes);
                }
                if no_clicked {
                    choice = Some(ConfirmChoice::No);
                }
            },
            ConfirmStyle::Okay => {
                if ok_clicked {
                    choice = Some(ConfirmChoice::Okay);
                }
            },
        }
        choice
    }

    /// The answer of the box shown as a modal: the box's own answer, else dismissal when the
    /// modal was closed from outside (Escape or the backdrop).
    pub fn modal_answer(inner: Option<ConfirmChoice>, should_close: bool) -> (c: Option<ConfirmChoice>)
        ensures
            c == (if inner is Some {
                inner
            } else if should_close {
                Some(ConfirmChoice::Dismissed)
            } else {
                None
            }),
    {
        if inner.is_some() {
            return inner;
        }
        if should_close {
            Some(ConfirmChoice::Dismissed)
        } else {
            None
        }
    }
}


/// The rounded notification bubble.
pub struct Toast<'a> {
    message: &'a str,
    link: Option<(&'a str, &'a str)>,
    autohide: bool,
}

/// What a [`Toast`] shows: its message, its link's text and URL, and its mode.
pub struct ToastView {
    pub message: Seq<char>,
    pub link: Option<(Seq<char>, Seq<char>)>,
    pub autohide: bool,
}

impl<'a> View for Toast<'a> {
    type V = ToastView;

    closed spec fn view(&self) -> ToastView {
        ToastView {
            message: self.message@,
            link: match self.link {
                Some((text, url)) => Some((text@, url@)),
                None => None,
            },
            autohide: self.autohide,
        }
    }
}

/// The first `n` lines of a text, or all of them when there are fewer.
pub open spec fn first_lines(s: Seq<char>, n: nat) -> Seq<Seq<char>> {
    if lines_of(s).len() <= n {
        lines_of(s)
    } else {
        lines_of(s).take(n as int)
    }
}

impl<'a> Toast<'a> {
    /// A toast for `message`, in autohide mode and without a link.
    pub fn new(message: &'a str) -> (t: Self)
        ensures
            t@.message == message@,
            t@.link is None,
            t@.autohide,
    {
        Toast { message, link: None, autohide: true }
    }

    /// The trailing hyperlink, added only when **both** halves are non-empty.
    pub fn link(self, text: &'a str, url: &'a str) -> (t: Self)
        ensures
            t@.message == self@.message,
            t@.autohide == self@.autohide,
            t@.link == (if text@.len() > 0 && url@.len() > 0 {
                Some((text@, url@))
            } else {
                self@.link
            }),
    {
        let mut t = self;
        if !text.is_empty() && !url.is_empty() {
            t.link = Some((text, url));
        }
        t
    }

    /// `false` draws the in-window error banner: no wordmark, a narrower margin and no timer.
    pub fn autohide(self, autohide: bool) -> (t: Self)
        ensures
            t@.message == self@.message,
            t@.link == self@.link,
            t@.autohide == autohide,
    {
        Toast { message: self.message, link: self.link, autohide }
    }

    /// The link, to draw.
    pub fn link_parts(&self) -> (l: Option<(&'a str, &'a str)>)
        ensures
            match l {
                Some((text, url)) => self@.link == Some((text@, url@)),
                None => self@.link is None,
            },
    {
        self.link
    }

    /// Whether this is the autohide bubble rather than the in-window banner.
    pub fn autohides(&self) -> (b: bool)
        ensures
            b == self@.autohide,
    {
        self.autohide
    }

    /// The lines this toast will draw: the message split at its line endings, at most three.
    pub fn lines(&self) -> (out: Vec<&'a str>)
        ensures
            out@.map_values(|l: &str| l@) == first_lines(self@.message, toast::MAX_LINES as nat),
    {
        let v = chars_of(self.message);
        let spans = line_spans(&v);
        let ghost all = span_texts(v@, spans@);
        let mut out: Vec<&'a str> = Vec::new();
        let mut i: usize = 0;
        while i < spans.len() && i < toast::MAX_LINES
            invariant
                i <= spans@.len(),
                i <= toast::MAX_LINES,
                v@ == self.message@,
                all == span_texts(v@, spans@),
                all == lines_of(self.message@),
                forall|k: int| 0 <= k < spans@.len() ==> (#[trigger] spans@[k]).0 <= spans@[k].1 <= v@.len(),
                out@.map_values(|l: &str| l@) == all.take(i as int),
            decreases spans@.len() - i,
        {
            let (start, end) = spans[i];
            let line = self.message.substring_char(start, end);
            proof {
                assert(all[i as int] == v@.subrange(start as int, end as int));
                assert(line@ == all[i as int]);
                assert(out@.push(line).map_values(|l: &str| l@) =~= out@.map_values(|l: &str| l@).push(
                    line@,
                ));
                assert(all.take(i + 1) =~= all.take(i as int).push(all[i as int]));
            }
            out.push(line);
            i = i + 1;
        }
        proof {
            if all.len() <= toast::MAX_LINES {
                assert(all.take(all.len() as int) =~= all);
            }
        }
        out
    }
}

} // verus!
