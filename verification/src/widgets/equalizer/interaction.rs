//! What the equalizer remembers between frames: which band is under the pointer and which of its
//! controls is mid-drag.
//!
//! A frequency wheel's drag is measured from where the wheel stood when the button went down; that
//! starting point is carried along as `P` and handed back untouched, so the bookkeeping here is
//! the same whatever the owner measures it in.

use vstd::prelude::*;

verus! {

/// A frequency wheel drag in progress on `band`, started from `start`.
#[derive(Debug, Clone, Copy, PartialEq)]
pub struct WheelDrag<P> {
    pub band: usize,
    pub start: P,
}

/// The gestures in progress over the equalizer.
#[derive(Debug, Clone, Copy, PartialEq)]
pub struct EqInteraction<P> {
    gain_drag: Option<usize>,
    wheel_drag: Option<WheelDrag<P>>,
    hovered: Option<usize>,
}

impl<P: Copy> EqInteraction<P> {
    /// The band whose gain is being dragged.
    pub closed spec fn gain_drag_of(self) -> Option<usize> {
        self.gain_drag
    }

    /// The wheel drag in progress.
    pub closed spec fn wheel_drag_of(self) -> Option<WheelDrag<P>> {
        self.wheel_drag
    }

    /// The band under the pointer.
    pub closed spec fn hovered_of(self) -> Option<usize> {
        self.hovered
    }

    /// Nothing is hovered and nothing is being dragged.
    pub open spec fn is_idle(self) -> bool {
        &&& self.gain_drag_of() is None
        &&& self.wheel_drag_of() is None
        &&& self.hovered_of() is None
    }

    /// Whether a drag sits on a band at or past `num_bands`.
    pub open spec fn has_stale_drag(self, num_bands: int) -> bool {
        ||| (self.gain_drag_of() matches Some(band) && band >= num_bands)
        ||| (self.wheel_drag_of() matches Some(drag) && drag.band >= num_bands)
    }

    /// A fresh memory: nothing hovered, nothing dragged.
    pub fn new() -> (r: Self)
        ensures
            r.is_idle(),
    {
        EqInteraction { gain_drag: None, wheel_drag: None, hovered: None }
    }

    /// The band whose gain is being dragged, if any.
    pub fn dragged_band(&self) -> (r: Option<usize>)
        ensures
            r == self.gain_drag_of(),
    {
        self.gain_drag
    }

    /// The band whose frequency wheel is being dragged, if any.
    pub fn dragged_wheel(&self) -> (r: Option<usize>)
        ensures
            r == (match self.wheel_drag_of() {
                Some(drag) => Some(drag.band),
                None => None,
            }),
    {
        match self.wheel_drag {
            Some(drag) => Some(drag.band),
            None => None,
        }
    }

    /// The band under the pointer, if any.
    pub fn hovered_band(&self) -> (r: Option<usize>)
        ensures
            r == self.hovered_of(),
    {
        self.hovered
    }

    /// Forget every gesture in progress.
    pub fn clear(&mut self)
        ensures
            final(self).is_idle(),
    {
        self.gain_drag = None;
        self.wheel_drag = None;
        self.hovered = None;
    }

    /// Record the pointer over `band`, or over none.
    pub fn set_hovered(&mut self, band: Option<usize>)
        ensures
            final(self).hovered_of() == band,
            final(self).gain_drag_of() == old(self).gain_drag_of(),
            final(self).wheel_drag_of() == old(self).wheel_drag_of(),
    {
        self.hovered = band;
    }

    /// Record a gain drag starting on `band`.
    pub fn start_gain_drag(&mut self, band: usize)
        ensures
            final(self).gain_drag_of() == Some(band),
            final(self).wheel_drag_of() == old(self).wheel_drag_of(),
            final(self).hovered_of() == old(self).hovered_of(),
    {
        self.gain_drag = Some(band);
    }

    /// Record a gain drag ending on `band`: it ends the drag only if the drag was on that band.
    pub fn end_gain_drag(&mut self, band: usize)
        ensures
            final(self).gain_drag_of() == (if old(self).gain_drag_of() == Some(band) {
                None
            } else {
                old(self).gain_drag_of()
            }),
            final(self).wheel_drag_of() == old(self).wheel_drag_of(),
            final(self).hovered_of() == old(self).hovered_of(),
    {
        if let Some(current) = self.gain_drag {
            if current == band {
                self.gain_drag = None;
            }
        }
    }

    /// Record a wheel drag starting on `band` from `start`.
    pub fn start_wheel_drag(&mut self, band: usize, start: P)
        ensures
            final(self).wheel_drag_of() == Some(WheelDrag { band, start }),
            final(self).gain_drag_of() == old(self).gain_drag_of(),
            final(self).hovered_of() == old(self).hovered_of(),
    {
        self.wheel_drag = Some(WheelDrag { band, start });
    }

    /// Record a wheel drag ending on `band`: it ends the drag only if the drag was on that band.
    pub fn end_wheel_drag(&mut self, band: usize)
        ensures
            final(self).wheel_drag_of() == (match old(self).wheel_drag_of() {
                Some(drag) => if drag.band == band { None } else { Some(drag) },
                None => None,
            }),
            final(self).gain_drag_of() == old(self).gain_drag_of(),
            final(self).hovered_of() == old(self).hovered_of(),
    {
        if let Some(drag) = self.wheel_drag {
            if drag.band == band {
                self.wheel_drag = None;
            }
        }
    }

    /// Where the wheel drag on `band` started, if one is in progress there.
    pub fn wheel_drag_start(&self, band: usize) -> (r: Option<P>)
        ensures
            r == (match self.wheel_drag_of() {
                Some(drag) => if drag.band == band { Some(drag.start) } else { None },
                None => None,
            }),
    {
        match self.wheel_drag {
            Some(drag) => if drag.band == band { Some(drag.start) } else { None },
            None => None,
        }
    }

    /// Forget the gestures in progress when a drag would carry over onto a band that no longer
    /// exists, now that there are `num_bands`; otherwise keep them.
    pub fn forget_bands_past(&mut self, num_bands: usize)
        ensures
            old(self).has_stale_drag(num_bands as int) ==> final(self).is_idle(),
            !old(self).has_stale_drag(num_bands as int) ==> *final(self) == *old(self),
            !final(self).has_stale_drag(num_bands as int),
    {
        let stale_gain = match self.gain_drag {
            Some(band) => band >= num_bands,
            None => false,
        };
        let stale_wheel = match self.wheel_drag {
            Some(drag) => drag.band >= num_bands,
            None => false,
        };
        if stale_gain || stale_wheel {
            self.clear();
        }
    }
}

impl<P: Copy> Default for EqInteraction<P> {
    fn default() -> (r: Self)
        ensures
            r.is_idle(),
    {
        Self::new()
    }
}

} // verus!
