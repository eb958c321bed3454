//! The named artwork: which file draws each image in each theme, and the tint that recolours a
//! rasterised image for a state the artwork does not have.
//!
//! Every image exists once per theme; the whole table swaps when the theme changes.

use vstd::prelude::*;
use crate::model::ThemeMode;
use crate::theme::Rgba;

verus! {

/// The named images, in table order.
#[derive(Debug, Clone, Copy, PartialEq, Eq, Hash, PartialOrd, Ord, Structural)]
pub enum FxImage {
    DefaultLogo,
    HighlightedLogo,
    IconLogo,
    PowerOnButton,
    PowerOffButton,
    DonateButton,
    DonateButtonHover,
    MenuButton,
    MenuButtonHover,
    MinimizeButton,
    MinimizeButtonHover,
    MaximizeButton,
    MaximizeButtonHover,
    MinimizeWindowButton,
    MinimizeWindowButtonHover,
    FlipButton,
    FlipButtonHover,
    RestoreDefaultsButton,
    RestoreDefaultsButtonHover,
    RemoveButton,
    ArrowNext,
    ArrowNextBW,
    ArrowPrev,
    ArrowPrevBW,
    ArrowUpSelected,
    ArrowUp,
    ArrowDownSelected,
    ArrowDown,
    DropDownArrow,
    DropDownArrowHover,
    SliderThumb,
    SliderThumbBW,
}

/// How many images there are.
pub const NUM_IMAGES: usize = 32;

/// An image's row in the artwork tables.
pub open spec fn image_index(image: FxImage) -> int {
    match image {
        FxImage::DefaultLogo => 0,
        FxImage::HighlightedLogo => 1,
        FxImage::IconLogo => 2,
        FxImage::PowerOnButton => 3,
        FxImage::PowerOffButton => 4,
        FxImage::DonateButton => 5,
        FxImage::DonateButtonHover => 6,
        FxImage::MenuButton => 7,
        FxImage::MenuButtonHover => 8,
        FxImage::MinimizeButton => 9,
        FxImage::MinimizeButtonHover => 10,
        FxImage::MaximizeButton => 11,
        FxImage::MaximizeButtonHover => 12,
        FxImage::MinimizeWindowButton => 13,
        FxImage::MinimizeWindowButtonHover => 14,
        FxImage::FlipButton => 15,
        FxImage::FlipButtonHover => 16,
        FxImage::RestoreDefaultsButton => 17,
        FxImage::RestoreDefaultsButtonHover => 18,
        FxImage::RemoveButton => 19,
        FxImage::ArrowNext => 20,
        FxImage::ArrowNextBW => 21,
        FxImage::ArrowPrev => 22,
        FxImage::ArrowPrevBW => 23,
        FxImage::ArrowUpSelected => 24,
        FxImage::ArrowUp => 25,
        FxImage::ArrowDownSelected => 26,
        FxImage::ArrowDown => 27,
        FxImage::DropDownArrow => 28,
        FxImage::DropDownArrowHover => 29,
        FxImage::SliderThumb => 30,
        FxImage::SliderThumbBW => 31,
    }
}

/// The file that draws an image in a theme.
pub open spec fn image_file(image: FxImage, theme: ThemeMode) -> &'static str {
    match theme {
        ThemeMode::Dark => match image {
            FxImage::DefaultLogo => "logo-white.svg",
            FxImage::HighlightedLogo => "logo-red.svg",
            FxImage::IconLogo => "FxSound White Bars.svg",
            FxImage::PowerOnButton => "power_on.svg",
            FxImage::PowerOffButton => "power_off.svg",
            FxImage::DonateButton => "donate.svg",
            FxImage::DonateButtonHover => "donate_hover.svg",
            FxImage::MenuButton => "menu.svg",
            FxImage::MenuButtonHover => "menu_hover.svg",
            FxImage::MinimizeButton => "minimize.svg",
            FxImage::MinimizeButtonHover => "minimize_hover.svg",
            FxImage::MaximizeButton => "maximize.svg",
            FxImage::MaximizeButtonHover => "maximize_hover.svg",
            FxImage::MinimizeWindowButton => "min_window.svg",
            FxImage::MinimizeWindowButtonHover => "min_window_hover.svg",
            FxImage::FlipButton => "flip_white.svg",
            FxImage::FlipButtonHover => "flip.svg",
            FxImage::RestoreDefaultsButton => "restore_defaults_white.svg",
            FxImage::RestoreDefaultsButtonHover => "restore_defaults.svg",
            FxImage::RemoveButton => "remove.svg",
            FxImage::ArrowNext => "arrow_next.svg",
            FxImage::ArrowNextBW => "arrow_next_bw.svg",
            FxImage::ArrowPrev => "arrow_prev.svg",
            FxImage::ArrowPrevBW => "arrow_prev_bw.svg",
            FxImage::ArrowUpSelected => "arrow_up.svg",
            FxImage::ArrowUp => "arrow_up_white.svg",
            FxImage::ArrowDownSelected => "arrow_down.svg",
            FxImage::ArrowDown => "arrow_down_white.svg",
            FxImage::DropDownArrow => "dropdown_arrow_bw.svg",
            FxImage::DropDownArrowHover => "dropdown_arrow_hover.svg",
            FxImage::SliderThumb => "Slider_Thumb.svg",
            FxImage::SliderThumbBW => "Slider_Thumb_bw.svg",
        },
        ThemeMode::Light => match image {
            FxImage::DefaultLogo => "logo-black.svg",
            FxImage::HighlightedLogo => "logo-blue.svg",
            FxImage::IconLogo => "FxSound Black Bars.svg",
            FxImage::PowerOnButton => "power_on_blue.svg",
            FxImage::PowerOffButton => "power_off_black.svg",
            FxImage::DonateButton => "donate_blue.svg",
            FxImage::DonateButtonHover => "donate_hover_blue.svg",
            FxImage::MenuButton => "menu_black.svg",
            FxImage::MenuButtonHover => "menu_hover_blue.svg",
            FxImage::MinimizeButton => "minimize_black.svg",
            FxImage::MinimizeButtonHover => "minimize_hover_blue.svg",
            FxImage::MaximizeButton => "maximize_black.svg",
            FxImage::MaximizeButtonHover => "maximize_hover_blue.svg",
            FxImage::MinimizeWindowButton => "min_window_black.svg",
            FxImage::MinimizeWindowButtonHover => "min_window_hover_blue.svg",
            FxImage::FlipButton => "flip_black.svg",
            FxImage::FlipButtonHover => "flip_blue.svg",
            FxImage::RestoreDefaultsButton => "restore_defaults_black.svg",
            FxImage::RestoreDefaultsButtonHover => "restore_defaults_blue.svg",
            FxImage::RemoveButton => "remove.svg",
            FxImage::ArrowNext => "arrow_next_blue.svg",
            FxImage::ArrowNextBW => "arrow_next_bw.svg",
            FxImage::ArrowPrev => "arrow_prev_blue.svg",
            FxImage::ArrowPrevBW => "arrow_prev_bw.svg",
            FxImage::ArrowUpSelected => "arrow_up_blue.svg",
            FxImage::ArrowUp => "arrow_up_black.svg",
            FxImage::ArrowDownSelected => "arrow_down_blue.svg",
            FxImage::ArrowDown => "arrow_down_black.svg",
            FxImage::DropDownArrow => "dropdown_arrow_bw.svg",
            FxImage::DropDownArrowHover => "dropdown_arrow_hover_blue.svg",
            FxImage::SliderThumb => "Slider_Thumb_blue.svg",
            FxImage::SliderThumbBW => "Slider_Thumb_bw.svg",
        },
    }
}

impl FxImage {
    /// The image's row in the artwork tables.
    pub fn index(self) -> (i: usize)
        ensures
            i == image_index(self),
            i < NUM_IMAGES,
    {
        match self {
            FxImage::DefaultLogo => 0,
            FxImage::HighlightedLogo => 1,
            FxImage::IconLogo => 2,
            FxImage::PowerOnButton => 3,
            FxImage::PowerOffButton => 4,
            FxImage::DonateButton => 5,
            FxImage::DonateButtonHover => 6,
            FxImage::MenuButton => 7,
            FxImage::MenuButtonHover => 8,
            FxImage::MinimizeButton => 9,
            FxImage::MinimizeButtonHover => 10,
            FxImage::MaximizeButton => 11,
            FxImage::MaximizeButtonHover => 12,
            FxImage::MinimizeWindowButton => 13,
            FxImage::MinimizeWindowButtonHover => 14,
            FxImage::FlipButton => 15,
            FxImage::FlipButtonHover => 16,
            FxImage::RestoreDefaultsButton => 17,
            FxImage::RestoreDefaultsButtonHover => 18,
            FxImage::RemoveButton => 19,
            FxImage::ArrowNext => 20,
            FxImage::ArrowNextBW => 21,
            FxImage::ArrowPrev => 22,
            FxImage::ArrowPrevBW => 23,
            FxImage::ArrowUpSelected => 24,
            FxImage::ArrowUp => 25,
            FxImage::ArrowDownSelected => 26,
            FxImage::ArrowDown => 27,
            FxImage::DropDownArrow => 28,
            FxImage::DropDownArrowHover => 29,
            FxImage::SliderThumb => 30,
            FxImage::SliderThumbBW => 31,
        }
    }
}

/// The name of the file that draws `image` in `theme`, under the artwork directory.
pub fn svg_file(image: FxImage, theme: ThemeMode) -> (f: &'static str)
    ensures
        f == image_file(image, theme),
{
    match theme {
        ThemeMode::Dark => match image {
            FxImage::DefaultLogo => "logo-white.svg",
            FxImage::HighlightedLogo => "logo-red.svg",
            FxImage::IconLogo => "FxSound White Bars.svg",
            FxImage::PowerOnButton => "power_on.svg",
            FxImage::PowerOffButton => "power_off.svg",
            FxImage::DonateButton => "donate.svg",
            FxImage::DonateButtonHover => "donate_hover.svg",
            FxImage::MenuButton => "menu.svg",
            FxImage::MenuButtonHover => "menu_hover.svg",
            FxImage::MinimizeButton => "minimize.svg",
            FxImage::MinimizeButtonHover => "minimize_hover.svg",
            FxImage::MaximizeButton => "maximize.svg",
            FxImage::MaximizeButtonHover => "maximize_hover.svg",
            FxImage::MinimizeWindowButton => "min_window.svg",
            FxImage::MinimizeWindowButtonHover => "min_window_hover.svg",
            FxImage::FlipButton => "flip_white.svg",
            FxImage::FlipButtonHover => "flip.svg",
            FxImage::RestoreDefaultsButton => "restore_defaults_white.svg",
            FxImage::RestoreDefaultsButtonHover => "restore_defaults.svg",
            FxImage::RemoveButton => "remove.svg",
            FxImage::ArrowNext => "arrow_next.svg",
            FxImage::ArrowNextBW => "arrow_next_bw.svg",
            FxImage::ArrowPrev => "arrow_prev.svg",
            FxImage::ArrowPrevBW => "arrow_prev_bw.svg",
            FxImage::ArrowUpSelected => "arrow_up.svg",
            FxImage::ArrowUp => "arrow_up_white.svg",
            FxImage::ArrowDownSelected => "arrow_down.svg",
            FxImage::ArrowDown => "arrow_down_white.svg",
            FxImage::DropDownArrow => "dropdown_arrow_bw.svg",
            FxImage::DropDownArrowHover => "dropdown_arrow_hover.svg",
            FxImage::SliderThumb => "Slider_Thumb.svg",
            FxImage::SliderThumbBW => "Slider_Thumb_bw.svg",
        },
        ThemeMode::Light => match image {
            FxImage::DefaultLogo => "logo-black.svg",
            FxImage::HighlightedLogo => "logo-blue.svg",
            FxImage::IconLogo => "FxSound Black Bars.svg",
            FxImage::PowerOnButton => "power_on_blue.svg",
            FxImage::PowerOffButton => "power_off_black.svg",
            FxImage::DonateButton => "donate_blue.svg",
            FxImage::DonateButtonHover => "donate_hover_blue.svg",
            FxImage::MenuButton => "menu_black.svg",
            FxImage::MenuButtonHover => "menu_hover_blue.svg",
            FxImage::MinimizeButton => "minimize_black.svg",
            FxImage::MinimizeButtonHover => "minimize_hover_blue.svg",
            FxImage::MaximizeButton => "maximize_black.svg",
            FxImage::MaximizeButtonHover => "maximize_hover_blue.svg",
            FxImage::MinimizeWindowButton => "min_window_black.svg",
            FxImage::MinimizeWindowButtonHover => "min_window_hover_blue.svg",
            FxImage::FlipButton => "flip_black.svg",
            FxImage::FlipButtonHover => "flip_blue.svg",
            FxImage::RestoreDefaultsButton => "restore_defaults_black.svg",
            FxImage::RestoreDefaultsButtonHover => "restore_defaults_blue.svg",
            FxImage::RemoveButton => "remove.svg",
            FxImage::ArrowNext => "arrow_next_blue.svg",
            FxImage::ArrowNextBW => "arrow_next_bw.svg",
            FxImage::ArrowPrev => "arrow_prev_blue.svg",
            FxImage::ArrowPrevBW => "arrow_prev_bw.svg",
            FxImage::ArrowUpSelected => "arrow_up_blue.svg",
            FxImage::ArrowUp => "arrow_up_black.svg",
            FxImage::ArrowDownSelected => "arrow_down_blue.svg",
            FxImage::ArrowDown => "arrow_down_black.svg",
            FxImage::DropDownArrow => "dropdown_arrow_bw.svg",
            FxImage::DropDownArrowHover => "dropdown_arrow_hover_blue.svg",
            FxImage::SliderThumb => "Slider_Thumb_blue.svg",
            FxImage::SliderThumbBW => "Slider_Thumb_bw.svg",
        },
    }
}

/// One channel of a tint: the tint's channel scaled by the pixel's alpha.
pub open spec fn tint_channel(channel: u8, alpha: u8) -> u8 {
    (channel as int * alpha as int / 255) as u8
}

/// A pixel recoloured to `colour`, keeping its alpha; the result is premultiplied.
pub open spec fn tint_pixel(p: Rgba, colour: Rgba) -> Rgba {
    Rgba {
        r: tint_channel(colour.r, p.a),
        g: tint_channel(colour.g, p.a),
        b: tint_channel(colour.b, p.a),
        a: p.a,
    }
}

fn scale(channel: u8, alpha: u8) -> (c: u8)
    ensures
        c == tint_channel(channel, alpha),
{
    let c: u32 = channel as u32;
    let a: u32 = alpha as u32;
    assert(c * a <= 255 * 255) by (nonlinear_arith)
        requires
            c <= 255,
            a <= 255;
    let product: u32 = c * a;
    assert(product / 255 <= 255);
    (product / 255) as u8
}

/// Recolour an image to `colour`, keeping each pixel's alpha.
pub fn tinted(pixels: &Vec<Rgba>, colour: Rgba) -> (out: Vec<Rgba>)
    ensures
        out@.len() == pixels@.len(),
        forall|i: int| 0 <= i < pixels@.len() ==> #[trigger] out@[i] == tint_pixel(pixels@[i], colour),
{
    let mut out: Vec<Rgba> = Vec::new();
    let mut i: usize = 0;
    while i < pixels.len()
        invariant
            i <= pixels@.len(),
            out@.len() == i,
            forall|k: int| 0 <= k < i ==> #[trigger] out@[k] == tint_pixel(pixels@[k], colour),
        decreases pixels@.len() - i,
    {
        let p = pixels[i];
        out.push(Rgba {
            r: scale(colour.r, p.a),
            g: scale(colour.g, p.a),
            b: scale(colour.b, p.a),
            a: p.a,
        });
        i = i + 1;
    }
    out
}

} // verus!
