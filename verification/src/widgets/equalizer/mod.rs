//! The graphic equalizer: the columns its bands share, where each band's fader and caption sit,
//! which bands carry a tooltip, and what the controls beside it ask for.

pub mod controls;
pub mod interaction;

use vstd::prelude::*;
use crate::layout::Rect;
use crate::state::{UiAction, UiState};
use crate::theme::Rgba;

verus! {

/// The equalizer panel's size.
pub const PANEL_SIZE: (i32, i32) = (776, 257);
/// Height of one band's fader when the frequency wheels are shown.
pub const SLIDER_HEIGHT: i32 = 180;
/// The frequency wheel's side, and what the faders grow by when there are no wheels.
pub const ROTARY_SLIDER_HEIGHT: i32 = 36;
/// Height of a caption.
pub const LABEL_HEIGHT: i32 = 12;
/// The frequency captions' font size once the wheels are gone.
pub const SMALL_FONT: i32 = 10;
/// The panel's side margins.
pub const X_MARGIN: i32 = 16;
/// The panel's top margin.
pub const Y_MARGIN: i32 = 8;
/// Boost or cut range of one band, in dB.
pub const MAX_GAIN_DB: i32 = 12;
/// The fader thumb's radius.
pub const THUMB_RADIUS: i32 = 8;
/// A fader is four thumb radii wide.
pub const FADER_WIDTH: i32 = 32;
/// Up to this many bands each band has a frequency wheel.
pub const WHEEL_BAND_LIMIT: usize = 10;
/// From this many bands on, frequencies are captioned on two lines.
pub const FIXED_FREQUENCY_BAND_LIMIT: usize = 15;

/// The columns the bands share: the panel's width less its margins, one whole-point column per
/// band, with the faders taller when there are too many bands for wheels.
#[derive(Debug, Clone, Copy, PartialEq, Eq, Structural)]
pub struct EqLayout {
    pub num_bands: usize,
    /// The panel's inner width divided among the bands, rounded down.
    pub column_width: i32,
    /// Height of each band's fader.
    pub slider_height: i32,
    /// The thumb's travel: the fader less two thumb diameters.
    pub region_size: i32,
    /// The wheel's side: its nominal size, or the column's width when that is narrower.
    pub rotary_size: i32,
    /// Whether each band has a frequency wheel.
    pub wheels: bool,
}

/// The layout for a band count.
pub open spec fn layout_of(num_bands: usize) -> EqLayout {
    let column_width: i32 = if num_bands == 0 {
        0
    } else {
        ((PANEL_SIZE.0 - X_MARGIN * 2) / num_bands as int) as i32
    };
    let wheels = num_bands <= WHEEL_BAND_LIMIT;
    let slider_height: i32 = if wheels { SLIDER_HEIGHT } else { (SLIDER_HEIGHT + ROTARY_SLIDER_HEIGHT) as i32 };
    EqLayout {
        num_bands,
        column_width,
        slider_height,
        region_size: (slider_height - THUMB_RADIUS * 4) as i32,
        rotary_size: if ROTARY_SLIDER_HEIGHT <= column_width { ROTARY_SLIDER_HEIGHT } else { column_width },
        wheels,
    }
}

/// Half of `x`, rounded towards zero.
pub open spec fn half_towards_zero(x: int) -> int {
    if x >= 0 {
        x / 2
    } else {
        -((-x) / 2)
    }
}

/// Where a band's fader starts within its column: centred, with the half point dropped towards
/// zero, so in columns narrower than a fader the faders overlap.
pub open spec fn fader_offset(column_width: int) -> int {
    half_towards_zero(column_width - FADER_WIDTH)
}

/// `column_width * band`, worked out where it cannot overflow.
fn column_span(column_width: i32, band: usize) -> (p: i128)
    ensures
        p == column_width * band,
{
    proof {
        assert(-0x8000_0000_0000_0000_0000_0000 <= column_width * band <= 0x8000_0000_0000_0000_0000_0000)
            by (nonlinear_arith)
            requires
                -0x8000_0000 <= column_width <= 0x8000_0000,
                0 <= band <= 0x1_0000_0000_0000_0000;
    }
    (column_width as i128) * (band as i128)
}

/// `fader_offset` of a column width.
fn fader_offset_of(column_width: i32) -> (o: i64)
    ensures
        o == fader_offset(column_width as int),
{
    let d: i64 = column_width as i64 - FADER_WIDTH as i64;
    if d >= 0 { d / 2 } else { -((-d) / 2) }
}

impl EqLayout {
    /// The layout for `num_bands` bands.
    pub fn new(num_bands: usize) -> (l: EqLayout)
        ensures
            l == layout_of(num_bands),
    {
        let usable: i32 = PANEL_SIZE.0 - X_MARGIN * 2;
        let column_width: i32 = if num_bands == 0 {
            0
        } else if num_bands > 744 {
            0
        } else {
            usable / (num_bands as i32)
        };
        proof {
            if num_bands > 744 {
                assert(744int / (num_bands as int) == 0) by {
                    vstd::arithmetic::div_mod::lemma_basic_div(744, num_bands as int);
                }
            }
        }
        let wheels = num_bands <= WHEEL_BAND_LIMIT;
        let slider_height: i32 = if wheels { SLIDER_HEIGHT } else { SLIDER_HEIGHT + ROTARY_SLIDER_HEIGHT };
        EqLayout {
            num_bands,
            column_width,
            slider_height,
            region_size: slider_height - THUMB_RADIUS * 4,
            rotary_size: if ROTARY_SLIDER_HEIGHT <= column_width { ROTARY_SLIDER_HEIGHT } else { column_width },
            wheels,
        }
    }

    /// The left edge of band `band`'s column.
    pub fn column_x(&self, band: usize) -> (x: i32)
        requires
            i32::MIN <= X_MARGIN + self.column_width * band <= i32::MAX,
        ensures
            x == X_MARGIN + self.column_width * band,
    {
        (X_MARGIN as i128 + column_span(self.column_width, band)) as i32
    }

    /// The left edge of band `band`'s fader.
    pub fn fader_x(&self, band: usize) -> (x: i32)
        requires
            i32::MIN <= X_MARGIN + self.column_width * band + fader_offset(self.column_width as int)
                <= i32::MAX,
        ensures
            x == X_MARGIN + self.column_width * band + fader_offset(self.column_width as int),
    {
        (X_MARGIN as i128 + column_span(self.column_width, band) + fader_offset_of(self.column_width) as i128) as i32
    }

    /// The x that the thumb, the curve's vertex and the dashed track of band `band` share.
    pub fn center_x(&self, band: usize) -> (x: i32)
        requires
            i32::MIN <= X_MARGIN + self.column_width * band + fader_offset(self.column_width as int)
                + FADER_WIDTH / 2 <= i32::MAX,
        ensures
            x == X_MARGIN + self.column_width * band + fader_offset(self.column_width as int)
                + FADER_WIDTH / 2,
    {
        (X_MARGIN as i128 + column_span(self.column_width, band) + fader_offset_of(self.column_width) as i128
            + (FADER_WIDTH / 2) as i128) as i32
    }

    /// Band `band`'s fader: the whole strip, not just the travel.
    pub fn fader_rect(&self, band: usize) -> (r: Rect)
        requires
            i32::MIN <= X_MARGIN + self.column_width * band + fader_offset(self.column_width as int)
                <= i32::MAX,
        ensures
            r == (Rect {
                x: (X_MARGIN + self.column_width * band + fader_offset(self.column_width as int)) as i32,
                y: Y_MARGIN,
                w: FADER_WIDTH,
                h: self.slider_height,
            }),
    {
        Rect { x: self.fader_x(band), y: Y_MARGIN, w: FADER_WIDTH, h: self.slider_height }
    }

    /// The top of the thumb's travel.
    pub fn track_top(&self) -> (y: i32)
        ensures
            y == Y_MARGIN + THUMB_RADIUS * 3,
    {
        Y_MARGIN + THUMB_RADIUS * 3
    }

    /// The bottom of the thumb's travel.
    pub fn track_bottom(&self) -> (y: i32)
        requires
            Y_MARGIN + THUMB_RADIUS * 3 + self.region_size <= i32::MAX,
        ensures
            y == Y_MARGIN + THUMB_RADIUS * 3 + self.region_size,
    {
        (self.track_top() as i64 + self.region_size as i64) as i32
    }

    /// The line the filled curve closes on.
    pub fn baseline(&self) -> (y: i32)
        requires
            Y_MARGIN + self.slider_height - THUMB_RADIUS <= i32::MAX,
        ensures
            y == Y_MARGIN + self.slider_height - THUMB_RADIUS,
    {
        (Y_MARGIN as i64 + self.slider_height as i64 - THUMB_RADIUS as i64) as i32
    }

    /// Band `band`'s frequency caption: the whole column, six points under the fader, one line
    /// tall with wheels and two without.
    pub fn freq_label_rect(&self, band: usize) -> (r: Rect)
        requires
            i32::MIN <= X_MARGIN + self.column_width * band <= i32::MAX,
            Y_MARGIN + self.slider_height + 6 <= i32::MAX,
        ensures
            r == (Rect {
                x: (X_MARGIN + self.column_width * band) as i32,
                y: (Y_MARGIN + self.slider_height + 6) as i32,
                w: self.column_width,
                h: if self.wheels { LABEL_HEIGHT } else { (LABEL_HEIGHT * 2) as i32 },
            }),
    {
        let height: i32 = if self.wheels { LABEL_HEIGHT } else { LABEL_HEIGHT * 2 };
        Rect {
            x: self.column_x(band),
            y: (Y_MARGIN as i64 + self.slider_height as i64 + 6) as i32,
            w: self.column_width,
            h: height,
        }
    }

    /// The frequency captions' font size.
    pub fn freq_label_size(&self) -> (s: i32)
        ensures
            s == if self.wheels { LABEL_HEIGHT } else { SMALL_FONT },
    {
        if self.wheels { LABEL_HEIGHT } else { SMALL_FONT }
    }
}

/// Every band of every layout stays inside the panel: the columns fill at most the panel's inner
/// width, each fader fits the panel's height, and with wheels so does the wheel below the caption.
pub proof fn lemma_bands_stay_inside_the_panel(num_bands: usize)
    requires
        num_bands >= 1,
    ensures
        X_MARGIN + layout_of(num_bands).column_width * num_bands <= PANEL_SIZE.0 - X_MARGIN,
        0 <= layout_of(num_bands).column_width,
        Y_MARGIN + layout_of(num_bands).slider_height <= PANEL_SIZE.1,
        layout_of(num_bands).wheels ==> Y_MARGIN + layout_of(num_bands).slider_height + 6
            + LABEL_HEIGHT + 4 + layout_of(num_bands).rotary_size <= PANEL_SIZE.1,
        !layout_of(num_bands).wheels ==> Y_MARGIN + layout_of(num_bands).slider_height + 6
            + LABEL_HEIGHT * 2 <= PANEL_SIZE.1,
        layout_of(num_bands).region_size > 0,
{
    let n = num_bands as int;
    vstd::arithmetic::div_mod::lemma_fundamental_div_mod(744, n);
    vstd::arithmetic::div_mod::lemma_div_pos_is_pos(744, n);
    vstd::arithmetic::div_mod::lemma_mod_pos_bound(744, n);
    assert((744int / n) * n <= 744) by (nonlinear_arith)
        requires
            744int == n * (744int / n) + 744int % n,
            0 <= 744int % n;
    vstd::arithmetic::div_mod::lemma_div_is_ordered_by_denominator(744, 1, n);
}

/// The band counts the menu offers, in order.
pub const BAND_COUNTS: [usize; 5] = [5, 10, 15, 20, 31];

/// The width of the column of controls beside the panel.
pub const CONTROLS_WIDTH: i32 = 168;
/// The gap between that column and the panel.
pub const CONTROLS_GAP: i32 = 16;

/// The column the controls beside the equalizer belong in: as tall as the panel, ending
/// [`CONTROLS_GAP`] points left of it.
pub fn controls_rect(panel: Rect) -> (r: Rect)
    requires
        i32::MIN + CONTROLS_GAP + CONTROLS_WIDTH <= panel.x,
    ensures
        r == (Rect {
            x: (panel.x - CONTROLS_GAP - CONTROLS_WIDTH) as i32,
            y: panel.y,
            w: CONTROLS_WIDTH,
            h: PANEL_SIZE.1,
        }),
{
    Rect { x: panel.x - CONTROLS_GAP - CONTROLS_WIDTH, y: panel.y, w: CONTROLS_WIDTH, h: PANEL_SIZE.1 }
}

/// The help tips of the ten bands, from the lowest up; the other band counts have none.
pub const BAND_TOOLTIPS: [&'static str; 10] = [
    "Hyper-low Bass - First band for very low frequencies down to 20 Hz.",
    "Super-low Bass. Increase this for more rumble and \"thump\", decrease if there's too much boominess.",
    "Center of your Bass sound. Increase this for a fuller low end, decrease if the bass sounds overwhelming.",
    "The low end of your mid-range. Increase this to make vocals sound rich and warm, decrease it to help control instruments that sound loud and muffled.",
    "A focal point of the low-mid-range. Increase this to bring out electric guitars and vocal volume, decrease it to reduce any \"boxy\" tones.",
    "The center mid-range band. Increase this to drastically boost rhythm instruments and snare hits, reduce it to cut out \"nasal\" tones.",
    "The high-mid-range. Increase this to get more instrumental harmonics, reduce it to improve drums that have too much \"clickiness\" or orchestral instruments that are piercing.",
    "The lower end of the high-end range. Increase this for more vocal clarity and articulation, reduce it and move the frequency wheel up and down to find and cut out overly loud \"S\" and \"T\" sounds.",
    "The core high-end range. Increase this to make your audio sound more like it's in an airy, large space, reduce it to help with room noises and unwanted echoing.",
    "The highest range of average human hearing. Increase this to give your sound more of a crisp tone, with lots of overtones. Reduce it to remove hiss or painfully high sounds.",
];

/// The one help tip every frequency wheel shares.
pub const WHEEL_TOOLTIP: &'static str = "This wheel allows you to adjust which frequencies this EQ band is affecting\nup or down to target different frequencies/pitches. The EQ slider above\ncontrols the volume of this EQ band. Increase or decrease to boost or cut\na portion of your audio's frequencies, without modifying the rest of your sound.";

/// The help tip band `band` of `num_bands` shows: its own at ten bands, unless the user hid the
/// tips; none otherwise.
pub fn band_tooltip(num_bands: usize, band: usize, hide_tooltips: bool) -> (tip: Option<&'static str>)
    ensures
        tip == if !hide_tooltips && num_bands == 10 && band < 10 {
            Some(BAND_TOOLTIPS@[band as int])
        } else {
            None::<&'static str>
        },
{
    if !hide_tooltips && num_bands == BAND_TOOLTIPS.len() && band < BAND_TOOLTIPS.len() {
        Some(BAND_TOOLTIPS[band])
    } else {
        None
    }
}

/// Whether `count` is one of the band counts the menu offers.
pub fn is_band_count(count: usize) -> (b: bool)
    ensures
        b == BAND_COUNTS@.contains(count),
{
    let mut i: usize = 0;
    while i < BAND_COUNTS.len()
        invariant
            i <= BAND_COUNTS@.len(),
            forall|j: int| 0 <= j < i ==> BAND_COUNTS@[j] != count,
        decreases BAND_COUNTS@.len() - i,
    {
        if BAND_COUNTS[i] == count {
            proof {
                assert(BAND_COUNTS@[i as int] == count);
            }
            return true;
        }
        i = i + 1;
    }
    false
}

/// What the pointer did to the controls beside the equalizer during one frame.
#[derive(Debug, Clone, Copy, PartialEq, Eq)]
pub struct SideControlEvents {
    /// The on/off switch was clicked.
    pub bypass_clicked: bool,
    /// A band count was picked from the open menu.
    pub band_count_picked: Option<usize>,
    /// The restore-defaults button was clicked.
    pub restore_clicked: bool,
}

/// What the controls beside the equalizer ask for, in their order from the top: the switch flips
/// the equalizer, a picked count is asked for when it is one the menu offers, and the button
/// restores the defaults.
/// With the power off the switch and the button are inert; the menu can only have been opened
/// while they were live.
pub open spec fn side_actions(enabled: bool, eq_on: bool, e: SideControlEvents) -> Seq<UiAction> {
    let flip = if enabled && e.bypass_clicked {
        seq![UiAction::SetEqEnabled(!eq_on)]
    } else {
        seq![]
    };
    let count = match e.band_count_picked {
        Some(c) => if BAND_COUNTS@.contains(c) {
            flip.push(UiAction::SetBandCount(c))
        } else {
            flip
        },
        None => flip,
    };
    if enabled && e.restore_clicked {
        count.push(UiAction::RestoreDefaults)
    } else {
        count
    }
}

/// What the controls beside the equalizer ask for during one frame. The filter width is a
/// continuous control and reports its value to the owner beside these.
pub fn side_control_actions(state: &UiState, events: &SideControlEvents) -> (actions: Vec<UiAction>)
    ensures
        actions@ == side_actions(state.power, state.eq_on, *events),
{
    let enabled = state.controls_enabled();
    let mut actions: Vec<UiAction> = Vec::new();
    if enabled && events.bypass_clicked {
        actions.push(UiAction::SetEqEnabled(!state.eq_on));
    }
    match events.band_count_picked {
        Some(c) => if is_band_count(c) {
            actions.push(UiAction::SetBandCount(c));
        },
        None => {},
    }
    if enabled && events.restore_clicked {
        actions.push(UiAction::RestoreDefaults);
    }
    proof {
        assert(actions@ =~= side_actions(state.power, state.eq_on, *events));
    }
    actions
}

/// The largest of three channels.
pub open spec fn max3(r: u8, g: u8, b: u8) -> u8 {
    if r >= g && r >= b {
        r
    } else if g >= b {
        g
    } else {
        b
    }
}

/// A disabled control's colour: a grey as bright as the colour's brightest channel, with its
/// alpha kept.
pub fn desaturate(colour: Rgba) -> (c: Rgba)
    ensures
        c.r == max3(colour.r, colour.g, colour.b),
        c.g == c.r,
        c.b == c.r,
        c.a == colour.a,
{
    let m = if colour.r >= colour.g && colour.r >= colour.b {
        colour.r
    } else if colour.g >= colour.b {
        colour.g
    } else {
        colour.b
    };
    Rgba { r: m, g: m, b: m, a: colour.a }
}

/// A dashed track's dash, in points.
pub const DASH_ON: i32 = 5;
/// The gap after each dash, in points.
pub const DASH_OFF: i32 = 2;

/// How many dashes a dashed line along `top..bottom` holds: one per started five-on, two-off
/// cycle.
pub open spec fn dash_count(top: int, bottom: int) -> int {
    if bottom <= top { 0 } else { (bottom - top + DASH_ON + DASH_OFF - 1) / (DASH_ON + DASH_OFF) }
}

/// The `k`th dash: it starts a cycle after the one before and ends a dash later, or at the end
/// of the line if that comes first.
pub open spec fn dash_of(top: int, bottom: int, k: int) -> (int, int) {
    let start = top + k * (DASH_ON + DASH_OFF);
    (start, if start + DASH_ON < bottom { start + DASH_ON } else { bottom })
}

/// Where the dashes of a five-on, two-off dashed line start and end along `top..bottom`, the last
/// one clipped to the end of the line.
pub fn dash_spans(top: i32, bottom: i32) -> (spans: Vec<(i32, i32)>)
    ensures
        spans.len() == dash_count(top as int, bottom as int),
        forall|k: int| 0 <= k < spans.len() ==>
            (spans[k].0 as int, spans[k].1 as int) == #[trigger] dash_of(top as int, bottom as int, k),
{
    let mut spans: Vec<(i32, i32)> = Vec::new();
    if bottom <= top {
        return spans;
    }
    let pitch: i64 = (DASH_ON + DASH_OFF) as i64;
    let mut y: i64 = top as i64;
    while y < bottom as i64
        invariant
            top < bottom,
            pitch == DASH_ON + DASH_OFF,
            y == top + spans.len() * (DASH_ON + DASH_OFF),
            top <= y,
            y < bottom + DASH_ON + DASH_OFF,
            forall|k: int| 0 <= k < spans.len() ==>
                (spans[k].0 as int, spans[k].1 as int) == #[trigger] dash_of(top as int, bottom as int, k),
            spans.len() <= dash_count(top as int, bottom as int),
        decreases bottom + DASH_ON + DASH_OFF - y,
    {
        let end: i64 = if y + (DASH_ON as i64) < bottom as i64 { y + DASH_ON as i64 } else { bottom as i64 };
        proof {
            assert(spans.len() < dash_count(top as int, bottom as int)) by {
                assert(y - top == spans.len() * 7);
                assert(y < bottom);
            }
        }
        spans.push((y as i32, end as i32));
        y = y + pitch;
    }
    proof {
        assert(spans.len() >= dash_count(top as int, bottom as int)) by {
            assert(y - top == spans.len() * 7);
            assert(y >= bottom);
        }
    }
    spans
}

} // verus!
