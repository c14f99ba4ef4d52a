//! Capability interfaces shared by the synthesis components.

use crate::fixed::UNIT;
use vstd::prelude::*;

verus! {

/// A periodic signal source that yields one sample per call and advances its
/// phase as a side effect.
pub trait Oscillator: Sized {
    /// Structural invariant of the oscillator's state.
    spec fn wf(&self) -> bool;

    /// The sample that the next call to `next_sample` returns.
    spec fn sample_view(&self) -> int;

    /// The state after one call to `next_sample`.
    spec fn advanced(&self) -> Self;

    /// Produce the current sample, in `[-UNIT, UNIT]`, and step the phase.
    fn next_sample(&mut self) -> (r: i64)
        requires
            old(self).wf(),
        ensures
            final(self).wf(),
            *final(self) == old(self).advanced(),
            r == old(self).sample_view(),
            -UNIT <= r <= UNIT,
    ;
}

/// A component whose behaviour can be swept by a control signal nominally in
/// `[-UNIT, UNIT]`.
pub trait Modulatable: Sized {
    /// Structural invariant of the component's state.
    spec fn wf(&self) -> bool;

    /// The value that `get_modulation` reports.
    spec fn modulation_view(&self) -> int;

    /// Apply a control value, reshaping the component's response.
    fn set_modulation(&mut self, value: i64)
        requires
            old(self).wf(),
            -UNIT <= value <= UNIT,
        ensures
            final(self).wf(),
    ;

    /// Report the current modulation state.
    fn get_modulation(&self) -> (r: i64)
        requires
            self.wf(),
        ensures
            r == self.modulation_view(),
    ;
}

} // verus!
