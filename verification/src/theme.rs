//! The two palettes: every named colour of the interface, as 24-bit RGB, per theme.
//!
//! A palette hands out opaque colours; a caller that wants transparency says so with an explicit
//! alpha, as every use site does.

use vstd::prelude::*;
use crate::model::ThemeMode;

verus! {

/// A colour with straight (unmultiplied) alpha.
#[derive(Debug, Clone, Copy, PartialEq, Eq, Hash, Structural)]
pub struct Rgba {
    pub r: u8,
    pub g: u8,
    pub b: u8,
    pub a: u8,
}

/// Every named colour, in table order.
#[derive(Debug, Clone, Copy, PartialEq, Eq, Hash, Structural)]
pub enum FxColor {
    WindowBackground,
    WidgetBackground,
    MenuBackground,
    Outline,
    DefaultText,
    DefaultFill,
    HighlightedText,
    HighlightedFill,
    MenuText,
    ComboBoxBackground,
    TextButtonBackground,
    ImageButton,
    HintText,
    ValidTextBorder,
    InvalidTextBorder,
    ControlBackground,
    SliderTrack,
    SliderHighlight,
    GraphHigh,
    GraphLow,
    EqStart,
    EqEnd,
    VerticalSliderLow,
    MenuHighlightBackground,
    PanelBackground,
    RowOutline,
    SelectedRowOutline,
}

/// How many colours each palette holds.
pub const NUM_COLORS: usize = 27;

/// The dark palette, in [`FxColor`] order.
pub const DARK: [u32; 27] = [
    0x18_1818, 0x18_1818, 0x38_3838, 0x2b_2b2b, 0xb1_b1b1, 0x00_0000, 0xff_ffff, 0x0c_0c0c,
    0xff_ffff, 0x00_0000, 0xd5_1535, 0xe6_3462, 0x7f_7f7f, 0x00_9cdd, 0xd5_1535, 0x0f_0f0f,
    0xe3_3250, 0xf7_546f, 0xd5_1535, 0xfe_566a, 0xef_4b65, 0x74_2834, 0xf3_f3f3, 0x41_4141,
    0x00_0000, 0xb1_b1b1, 0xe6_3462,
];

/// The light palette, in [`FxColor`] order.
pub const LIGHT: [u32; 27] = [
    0xf5_f5f5, 0xf5_f5f5, 0xc7_c7c7, 0xfa_fafa, 0x4e_4e4e, 0xff_ffff, 0x00_0000, 0xe0_e0e0,
    0x00_0000, 0xd7_d7d7, 0x1a_c1ff, 0x23_b6eb, 0x7f_7f7f, 0x00_9cdd, 0xd5_1535, 0xe0_e0e0,
    0x0a_4d66, 0x53_ccff, 0x1a_c1ff, 0x72_d8ff, 0x33_c8ff, 0x06_3244, 0x1c_1c1c, 0xb9_b9b9,
    0xc0_c0c0, 0x4e_4e4e, 0x23_b6eb,
];

/// A colour's row in the palette tables.
pub open spec fn color_index(c: FxColor) -> int {
    match c {
        FxColor::WindowBackground => 0,
        FxColor::WidgetBackground => 1,
        FxColor::MenuBackground => 2,
        FxColor::Outline => 3,
        FxColor::DefaultText => 4,
        FxColor::DefaultFill => 5,
        FxColor::HighlightedText => 6,
        FxColor::HighlightedFill => 7,
        FxColor::MenuText => 8,
        FxColor::ComboBoxBackground => 9,
        FxColor::TextButtonBackground => 10,
        FxColor::ImageButton => 11,
        FxColor::HintText => 12,
        FxColor::ValidTextBorder => 13,
        FxColor::InvalidTextBorder => 14,
        FxColor::ControlBackground => 15,
        FxColor::SliderTrack => 16,
        FxColor::SliderHighlight => 17,
        FxColor::GraphHigh => 18,
        FxColor::GraphLow => 19,
        FxColor::EqStart => 20,
        FxColor::EqEnd => 21,
        FxColor::VerticalSliderLow => 22,
        FxColor::MenuHighlightBackground => 23,
        FxColor::PanelBackground => 24,
        FxColor::RowOutline => 25,
        FxColor::SelectedRowOutline => 26,
    }
}

impl FxColor {
    /// The colour's row in the palette tables.
    pub fn index(self) -> (i: usize)
        ensures
            i == color_index(self),
            i < NUM_COLORS,
    {
        match self {
            FxColor::WindowBackground => 0,
            FxColor::WidgetBackground => 1,
            FxColor::MenuBackground => 2,
            FxColor::Outline => 3,
            FxColor::DefaultText => 4,
            FxColor::DefaultFill => 5,
            FxColor::HighlightedText => 6,
            FxColor::HighlightedFill => 7,
            FxColor::MenuText => 8,
            FxColor::ComboBoxBackground => 9,
            FxColor::TextButtonBackground => 10,
            FxColor::ImageButton => 11,
            FxColor::HintText => 12,
            FxColor::ValidTextBorder => 13,
            FxColor::InvalidTextBorder => 14,
            FxColor::ControlBackground => 15,
            FxColor::SliderTrack => 16,
            FxColor::SliderHighlight => 17,
            FxColor::GraphHigh => 18,
            FxColor::GraphLow => 19,
            FxColor::EqStart => 20,
            FxColor::EqEnd => 21,
            FxColor::VerticalSliderLow => 22,
            FxColor::MenuHighlightBackground => 23,
            FxColor::PanelBackground => 24,
            FxColor::RowOutline => 25,
            FxColor::SelectedRowOutline => 26,
        }
    }
}

/// The 24-bit RGB a theme gives a colour.
pub open spec fn rgb_of(mode: ThemeMode, c: FxColor) -> u32 {
    match mode {
        ThemeMode::Dark => DARK@[color_index(c)],
        ThemeMode::Light => LIGHT@[color_index(c)],
    }
}

/// The opaque colour with the red, green and blue bytes of a 24-bit value.
pub open spec fn unpack(rgb: u32) -> Rgba {
    Rgba {
        r: ((rgb / 0x1_0000) % 0x100) as u8,
        g: ((rgb / 0x100) % 0x100) as u8,
        b: (rgb % 0x100) as u8,
        a: 255,
    }
}

/// The active palette.
#[derive(Debug, Clone, Copy, PartialEq, Eq, Structural)]
pub struct Palette {
    mode: ThemeMode,
}

impl View for Palette {
    type V = ThemeMode;

    closed spec fn view(&self) -> ThemeMode {
        self.mode
    }
}

impl Default for Palette {
    /// The dark palette, which a fresh install shows.
    fn default() -> (p: Self)
        ensures
            p@ == ThemeMode::Dark,
    {
        Palette { mode: ThemeMode::Dark }
    }
}

impl Palette {
    /// The palette of a theme.
    pub fn new(mode: ThemeMode) -> (p: Self)
        ensures
            p@ == mode,
    {
        Palette { mode }
    }

    /// Which theme this is.
    pub fn mode(self) -> (m: ThemeMode)
        ensures
            m == self@,
    {
        self.mode
    }

    /// Whether this is the dark theme.
    pub fn is_dark(self) -> (b: bool)
        ensures
            b == (self@ == ThemeMode::Dark),
    {
        match self.mode {
            ThemeMode::Dark => true,
            ThemeMode::Light => false,
        }
    }

    /// An opaque colour from the palette.
    pub fn color(self, id: FxColor) -> (c: Rgba)
        ensures
            c == unpack(rgb_of(self@, id)),
    {
        let i = id.index();
        let rgb: u32 = match self.mode {
            ThemeMode::Dark => DARK[i],
            ThemeMode::Light => LIGHT[i],
        };
        Rgba {
            r: ((rgb / 0x1_0000) % 0x100) as u8,
            g: ((rgb / 0x100) % 0x100) as u8,
            b: (rgb % 0x100) as u8,
            a: 255,
        }
    }

    /// A colour from the palette at a given alpha.
    pub fn color_with_alpha(self, id: FxColor, alpha: u8) -> (c: Rgba)
        ensures
            c == (Rgba { a: alpha, ..unpack(rgb_of(self@, id)) }),
    {
        let c = self.color(id);
        Rgba { r: c.r, g: c.g, b: c.b, a: alpha }
    }

    /// The window's background, also the root clear colour.
    pub fn window_background(self) -> (c: Rgba)
        ensures
            c == unpack(rgb_of(self@, FxColor::WindowBackground)),
    {
        self.color(FxColor::WindowBackground)
    }
}

/// What the two palettes share: every colour they hand out is opaque, each theme paints its
/// window and its widgets on the same background, and the error outline and the hint text are
/// the same colour in both themes.
pub proof fn lemma_palettes_agree(mode: ThemeMode, c: FxColor)
    ensures
        unpack(rgb_of(mode, c)).a == 255,
        rgb_of(mode, FxColor::WindowBackground) == rgb_of(mode, FxColor::WidgetBackground),
        rgb_of(ThemeMode::Dark, FxColor::InvalidTextBorder) == rgb_of(
            ThemeMode::Light,
            FxColor::InvalidTextBorder,
        ),
        rgb_of(ThemeMode::Dark, FxColor::HintText) == rgb_of(ThemeMode::Light, FxColor::HintText),
{
}

} // verus!
