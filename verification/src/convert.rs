//! Conversion between sequence representations of a musical line.
//!
//! Each trait converts a sequence of one representation into another and
//! states the exact result through a per-implementation spec function:
//! the semitone counts of the output, as given by the corresponding
//! conversion in [`crate::semitones`]. The `allowed` spec functions name
//! the inputs on which the conversion stays inside the `u8` semitone
//! range; outside them the original count arithmetic would have no
//! representable result.

use vstd::prelude::*;

use crate::interval::Interval;
use crate::interval::interval_ints;
use crate::pitch::Pitch;
use crate::pitch::pitch_ints;
use crate::step::Step;
use crate::step::step_ints;

verus! {

/// Converts a sequence of musical elements into intervals.
///
/// For steps, the intervals are the running totals of the steps; for
/// pitches, each interval is the distance of a later pitch from the
/// first.
pub trait IntoIntervals {
    /// The inputs on which every produced interval fits in the `u8`
    /// semitone range.
    spec fn intervals_allowed(&self) -> bool;

    /// The semitone counts of the intervals this sequence converts to.
    spec fn intervals_result(&self) -> Seq<int>;

    /// Converts the sequence into intervals.
    fn into_intervals(&self) -> (r: Vec<Interval>)
        requires
            self.intervals_allowed(),
        ensures
            interval_ints(r@) == self.intervals_result(),
            r@.len() == self.intervals_result().len(),
    ;
}

/// Converts a sequence of musical elements into steps.
///
/// For intervals, the first step equals the first interval and each
/// later step is the difference between consecutive intervals; for
/// pitches, each step is the difference between consecutive pitches.
pub trait IntoSteps {
    /// The inputs on which every produced step fits in the `u8`
    /// semitone range.
    spec fn steps_allowed(&self) -> bool;

    /// The semitone counts of the steps this sequence converts to.
    spec fn steps_result(&self) -> Seq<int>;

    /// Converts the sequence into steps.
    fn into_steps(&self) -> (r: Vec<Step>)
        requires
            self.steps_allowed(),
        ensures
            step_ints(r@) == self.steps_result(),
            r@.len() == self.steps_result().len(),
    ;
}

/// Converts a sequence of musical elements into pitches, starting from an
/// explicit root pitch.
///
/// Intervals are applied each directly on the root (they are cumulative
/// already); steps are applied each on the pitch before it. Either way
/// the root itself comes first, so the output holds one pitch more than
/// the input has elements.
pub trait IntoPitches {
    /// The roots from which every produced pitch fits in the `u8`
    /// note-number range.
    spec fn pitches_allowed(&self, root: Pitch) -> bool;

    /// The note numbers of the pitches this sequence converts to from
    /// the given root.
    spec fn pitches_result(&self, root: Pitch) -> Seq<int>;

    /// Converts the sequence into pitches starting from `root`.
    fn into_pitches(&self, root: Pitch) -> (r: Vec<Pitch>)
        requires
            self.pitches_allowed(root),
        ensures
            pitch_ints(r@) == self.pitches_result(root),
            r@.len() == self.pitches_result(root).len(),
    ;
}

} // verus!
