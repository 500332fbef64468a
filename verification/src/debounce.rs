//! Software debouncing for a polled button.
//!
//! When input is sampled periodically rather than reported by hardware edge
//! events, a latch remembers the last raw level and reports a press edge
//! exactly once per continuous press, however many polling ticks pass while
//! the button stays held.

use vstd::prelude::*;

verus! {

/// What one sample does: the pair of the reported edge and the new latch
/// value, from the latched level and the current raw level.
pub open spec fn sample_step(was_pressed: bool, raw_level: bool) -> (bool, bool) {
    (raw_level && !was_pressed, raw_level)
}

/// Edge-detection state for one physical button.
pub struct DebounceLatch {
    /// The raw level observed by the previous sample.
    pub was_pressed: bool,
}

impl DebounceLatch {
    /// A fresh latch: no press has been observed yet.
    pub fn new() -> (latch: DebounceLatch)
        ensures
            !latch.was_pressed,
    {
        DebounceLatch { was_pressed: false }
    }

    /// Feed one raw sample of the button level; the result is true exactly on
    /// a rising edge, i.e. when the level is high and the previous sample was
    /// low. The latch always takes the current level.
    pub fn sample(&mut self, raw_level: bool) -> (edge: bool)
        ensures
            (edge, final(self).was_pressed) == sample_step(old(self).was_pressed, raw_level),
    {
        let edge = raw_level && !self.was_pressed;
        self.was_pressed = raw_level;
        edge
    }
}

/// Law: a press edge is reported at most once per continuous press. Whatever
/// the latch held before, once a high sample has been taken every further
/// high sample reports no edge.
pub proof fn lemma_one_edge_per_press(was_pressed: bool)
    ensures
        !sample_step(sample_step(was_pressed, true).1, true).0,
{
}

} // verus!
