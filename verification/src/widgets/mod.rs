//! The custom controls' decisions: what a combo box shows and how it is outlined, the equalizer's
//! band-count menu, and how faithfully a slider reproduces the classic drawing.

pub mod combo;
pub mod equalizer;
pub mod slider;
pub mod visualizer;
