//! The slider's thumb, and how faithfully a slider reproduces the classic FxSound drawing.

use vstd::prelude::*;

verus! {

/// The thumb's radius.
pub const THUMB_RADIUS: i32 = 8;

/// How faithfully to reproduce the classic drawing.
#[derive(Debug, Clone, Copy, PartialEq, Eq, Structural)]
pub enum Fidelity {
    /// Reproduce the classic drawing exactly, including the filled track overshooting the thumb.
    Faithful,
    /// Fill the track from its start to the thumb, which is what the classic drawing meant.
    Corrected,
}

impl Default for Fidelity {
    /// Faithful: matching the classic drawing pixel for pixel is the default.
    fn default() -> (f: Self)
        ensures
            f == Fidelity::Faithful,
    {
        Fidelity::Faithful
    }
}

} // verus!
