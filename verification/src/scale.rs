//! Scales: fixed-pattern sequences of steps, intervals or pitches under
//! a quality tag.
//!
//! A [`Scale`] wraps a sequence of one representation and carries its
//! scale family as a phantom type parameter, the *quality*. A quality
//! declares a canonical step pattern through [`ScaleQuality`], and the
//! well-formedness of that pattern — declared length kept, strictly
//! positive steps, a total inside the semitone range — is proved once
//! per quality rather than checked at run time. The validator traits
//! state the corresponding run-time checks exactly for callers that
//! hold an arbitrary sequence.

use core::marker::PhantomData;

use vstd::prelude::*;

use crate::convert::IntoIntervals;
use crate::convert::IntoPitches;
use crate::convert::IntoSteps;
use crate::interval::Interval;
use crate::interval::interval_ints;
use crate::pitch::Pitch;
use crate::pitch::pitch_ints;
use crate::semitones::ascending;
use crate::semitones::intervals_from_pitches;
use crate::semitones::intervals_from_steps;
use crate::semitones::pitches_from_intervals;
use crate::semitones::pitches_from_steps;
use crate::semitones::rooted;
use crate::semitones::steps_from_intervals;
use crate::semitones::steps_from_pitches;
use crate::semitones::total;
use crate::step::Step;
use crate::step::step_ints;

verus! {

/// A scale family: a compile-time tag that declares a step count and a
/// canonical step pattern.
///
/// The declared data must be coherent; `pattern_wf` obliges every
/// quality to prove it once, so no scale built from a quality can carry
/// an invalid pattern.
pub trait ScaleQuality: Sized {
    /// The declared number of steps in the family's pattern.
    spec fn spec_steps_length() -> nat;

    /// The canonical step pattern, as semitone counts.
    spec fn spec_pattern() -> Seq<int>;

    /// The pattern is well formed: it has the declared length, every
    /// step moves strictly upward, and the whole span stays inside the
    /// semitone range.
    proof fn pattern_wf()
        ensures
            Self::spec_pattern().len() == Self::spec_steps_length(),
            forall|i: int| 0 <= i < Self::spec_pattern().len() ==> 1 <= #[trigger] Self::spec_pattern()[i],
            total(Self::spec_pattern()) <= u8::MAX,
    ;

    /// The number of steps in the family's pattern.
    fn steps_length() -> (r: usize)
        ensures
            r as nat == Self::spec_steps_length(),
    ;

    /// The number of pitches a scale of this family spans: one more
    /// than its number of steps.
    fn pitches_length() -> (r: usize)
        ensures
            r as nat == Self::spec_steps_length() + 1,
    ;

    /// The canonical step pattern.
    fn pattern() -> (r: Vec<Step>)
        ensures
            step_ints(r@) == Self::spec_pattern(),
    ;

    /// Whether a step sequence has the declared pattern length.
    fn validate_pattern(pattern: &Vec<Step>) -> (r: bool)
        ensures
            r == (pattern@.len() == Self::spec_steps_length()),
    {
        pattern.len() == Self::steps_length()
    }
}

/// Declares the lengths a scale of the implementing family accepts.
pub trait ValidateScaleLength {
    /// The smallest accepted length.
    spec fn spec_min_length() -> nat;

    /// The largest accepted length.
    spec fn spec_max_length() -> nat;

    /// The smallest accepted length.
    fn min_length() -> (r: usize)
        ensures
            r as nat == Self::spec_min_length(),
    ;

    /// The largest accepted length.
    fn max_length() -> (r: usize)
        ensures
            r as nat == Self::spec_max_length(),
    ;

    /// Whether the given length lies in the accepted range.
    fn validate_length(length: usize) -> (r: bool)
        ensures
            r == (Self::spec_min_length() <= length as nat && length as nat
                <= Self::spec_max_length()),
    {
        Self::min_length() <= length && length <= Self::max_length()
    }
}

/// Run-time validation of a step sequence.
pub trait ValidateScaleSteps {
    /// Whether every step moves strictly upward (no unison steps).
    fn validate_steps(steps: &Vec<Step>) -> (r: bool)
        ensures
            r == (forall|i: int| 0 <= i < steps@.len() ==> (#[trigger] steps@[i]).0 > 0),
    {
        let mut i: usize = 0;
        while i < steps.len()
            invariant
                i <= steps@.len(),
                forall|j: int| 0 <= j < i ==> (#[trigger] steps@[j]).0 > 0,
            decreases steps@.len() - i,
        {
            if steps[i].semitones() == 0 {
                return false;
            }
            i = i + 1;
        }
        true
    }
}

/// Run-time validation of an interval sequence.
pub trait ValidateScaleIntervals {
    /// Whether the intervals never decrease from one degree to the
    /// next.
    fn validate_intervals(intervals: &Vec<Interval>) -> (r: bool)
        ensures
            r == ascending(interval_ints(intervals@)),
    {
        let mut i: usize = 1;
        while i < intervals.len()
            invariant
                1 <= i <= intervals@.len() || intervals@.len() == 0,
                forall|j: int| 0 < j < i ==> interval_ints(intervals@)[j - 1]
                    <= #[trigger] interval_ints(intervals@)[j],
            decreases intervals@.len() - i,
        {
            if intervals[i - 1].semitones() > intervals[i].semitones() {
                assert(interval_ints(intervals@)[i - 1] > interval_ints(intervals@)[i as int]);
                return false;
            }
            i = i + 1;
        }
        true
    }
}

/// Run-time validation of a pitch sequence.
pub trait ValidateScalePitches {
    /// Whether the pitches have the expected count and never descend
    /// from one degree to the next.
    fn validate_pitches(pitches: &Vec<Pitch>, length: usize) -> (r: bool)
        ensures
            r == (pitches@.len() == length && ascending(pitch_ints(pitches@))),
    {
        if pitches.len() != length {
            return false;
        }
        let mut i: usize = 1;
        while i < pitches.len()
            invariant
                1 <= i <= pitches@.len() || pitches@.len() == 0,
                forall|j: int| 0 < j < i ==> pitch_ints(pitches@)[j - 1] <= #[trigger] pitch_ints(
                    pitches@,
                )[j],
            decreases pitches@.len() - i,
        {
            if pitches[i - 1].semitones() > pitches[i].semitones() {
                assert(pitch_ints(pitches@)[i - 1] > pitch_ints(pitches@)[i as int]);
                return false;
            }
            i = i + 1;
        }
        true
    }
}

/// An ordered, fixed-pattern sequence of one representation, tagged by
/// its scale family. The tag carries no run-time state.
#[derive(Debug, PartialEq, Eq)]
pub struct Scale<Q, T> {
    items: Vec<T>,
    _quality: PhantomData<Q>,
}

/// A scale represented as the steps between its adjacent degrees.
pub type ScaleInSteps<Q> = Scale<Q, Step>;

/// A scale represented as the intervals of its degrees from the root.
pub type ScaleInIntervals<Q> = Scale<Q, Interval>;

/// A scale represented as the absolute pitches of its degrees.
pub type ScaleInPitches<Q> = Scale<Q, Pitch>;

impl<Q, T> View for Scale<Q, T> {
    type V = Seq<T>;

    closed spec fn view(&self) -> Seq<T> {
        self.items@
    }
}

impl<Q, T> Scale<Q, T> {
    /// Wraps the given elements as a scale of the tagged family.
    pub fn new(items: Vec<T>) -> (r: Self)
        ensures
            r@ == items@,
    {
        Scale { items, _quality: PhantomData }
    }

    /// The elements of the scale.
    pub fn items(&self) -> (r: &Vec<T>)
        ensures
            r@ == self@,
    {
        &self.items
    }
}

impl<Q> Scale<Q, Step> {
    /// The steps of the scale.
    pub fn steps(&self) -> (r: &Vec<Step>)
        ensures
            r@ == self@,
    {
        &self.items
    }

    /// Converts the scale into its interval representation, keeping the
    /// quality tag: the intervals are the running totals of the steps.
    pub fn into_scale_in_intervals(&self) -> (r: ScaleInIntervals<Q>)
        requires
            total(step_ints(self@)) <= u8::MAX,
        ensures
            interval_ints(r@) == intervals_from_steps(step_ints(self@)),
            r@.len() == self@.len(),
    {
        Scale::new(self.items.into_intervals())
    }

    /// Converts the scale into its pitch representation from the given
    /// root, keeping the quality tag: the root comes first and each
    /// step raises the pitch before it.
    pub fn into_scale_in_pitches(&self, root: Pitch) -> (r: ScaleInPitches<Q>)
        requires
            root.0 + total(step_ints(self@)) <= u8::MAX,
        ensures
            pitch_ints(r@) == pitches_from_steps(root.0 as int, step_ints(self@)),
            r@.len() == self@.len() + 1,
    {
        Scale::new(self.items.into_pitches(root))
    }

    /// The interval representation of the scale; an alias for
    /// [`Self::into_scale_in_intervals`].
    pub fn to_intervals(&self) -> (r: ScaleInIntervals<Q>)
        requires
            total(step_ints(self@)) <= u8::MAX,
        ensures
            interval_ints(r@) == intervals_from_steps(step_ints(self@)),
            r@.len() == self@.len(),
    {
        self.into_scale_in_intervals()
    }

    /// The pitch representation of the scale from the given root; an
    /// alias for [`Self::into_scale_in_pitches`].
    pub fn to_pitches(&self, root: Pitch) -> (r: ScaleInPitches<Q>)
        requires
            root.0 + total(step_ints(self@)) <= u8::MAX,
        ensures
            pitch_ints(r@) == pitches_from_steps(root.0 as int, step_ints(self@)),
            r@.len() == self@.len() + 1,
    {
        self.into_scale_in_pitches(root)
    }
}

impl<Q> Scale<Q, Interval> {
    /// The intervals of the scale.
    pub fn intervals(&self) -> (r: &Vec<Interval>)
        ensures
            r@ == self@,
    {
        &self.items
    }

    /// Converts the scale into its step representation, keeping the
    /// quality tag: the first interval, then each difference between
    /// consecutive intervals.
    pub fn into_scale_in_steps(&self) -> (r: ScaleInSteps<Q>)
        requires
            ascending(interval_ints(self@)),
        ensures
            step_ints(r@) == steps_from_intervals(interval_ints(self@)),
            r@.len() == self@.len(),
    {
        Scale::new(self.items.into_steps())
    }

    /// Converts the scale into its pitch representation from the given
    /// root, keeping the quality tag: the root comes first and each
    /// interval is applied directly on the root.
    pub fn into_scale_in_pitches(&self, root: Pitch) -> (r: ScaleInPitches<Q>)
        requires
            forall|i: int| 0 <= i < self@.len() ==> root.0 + #[trigger] interval_ints(self@)[i]
                <= u8::MAX,
        ensures
            pitch_ints(r@) == pitches_from_intervals(root.0 as int, interval_ints(self@)),
            r@.len() == self@.len() + 1,
    {
        Scale::new(self.items.into_pitches(root))
    }

    /// The step representation of the scale; an alias for
    /// [`Self::into_scale_in_steps`].
    pub fn to_steps(&self) -> (r: ScaleInSteps<Q>)
        requires
            ascending(interval_ints(self@)),
        ensures
            step_ints(r@) == steps_from_intervals(interval_ints(self@)),
            r@.len() == self@.len(),
    {
        self.into_scale_in_steps()
    }

    /// The pitch representation of the scale from the given root; an
    /// alias for [`Self::into_scale_in_pitches`].
    pub fn to_pitches(&self, root: Pitch) -> (r: ScaleInPitches<Q>)
        requires
            forall|i: int| 0 <= i < self@.len() ==> root.0 + #[trigger] interval_ints(self@)[i]
                <= u8::MAX,
        ensures
            pitch_ints(r@) == pitches_from_intervals(root.0 as int, interval_ints(self@)),
            r@.len() == self@.len() + 1,
    {
        self.into_scale_in_pitches(root)
    }
}

impl<Q> Scale<Q, Pitch> {
    /// The pitches of the scale.
    pub fn pitches(&self) -> (r: &Vec<Pitch>)
        ensures
            r@ == self@,
    {
        &self.items
    }

    /// Converts the scale into its interval representation, keeping the
    /// quality tag: each interval measures a later pitch against the
    /// first.
    pub fn to_scale_in_intervals(&self) -> (r: ScaleInIntervals<Q>)
        requires
            rooted(pitch_ints(self@)),
        ensures
            interval_ints(r@) == intervals_from_pitches(pitch_ints(self@)),
            self@.len() == 0 ==> r@.len() == 0,
            self@.len() >= 1 ==> r@.len() == self@.len() - 1,
    {
        Scale::new(self.items.into_intervals())
    }

    /// Converts the scale into its step representation, keeping the
    /// quality tag: each step measures a pitch against its predecessor.
    pub fn to_scale_in_steps(&self) -> (r: ScaleInSteps<Q>)
        requires
            ascending(pitch_ints(self@)),
        ensures
            step_ints(r@) == steps_from_pitches(pitch_ints(self@)),
            self@.len() == 0 ==> r@.len() == 0,
            self@.len() >= 1 ==> r@.len() == self@.len() - 1,
    {
        Scale::new(self.items.into_steps())
    }

    /// The interval representation of the scale; an alias for
    /// [`Self::to_scale_in_intervals`].
    pub fn to_intervals(&self) -> (r: ScaleInIntervals<Q>)
        requires
            rooted(pitch_ints(self@)),
        ensures
            interval_ints(r@) == intervals_from_pitches(pitch_ints(self@)),
            self@.len() == 0 ==> r@.len() == 0,
            self@.len() >= 1 ==> r@.len() == self@.len() - 1,
    {
        self.to_scale_in_intervals()
    }

    /// The step representation of the scale; an alias for
    /// [`Self::to_scale_in_steps`].
    pub fn to_steps(&self) -> (r: ScaleInSteps<Q>)
        requires
            ascending(pitch_ints(self@)),
        ensures
            step_ints(r@) == steps_from_pitches(pitch_ints(self@)),
            self@.len() == 0 ==> r@.len() == 0,
            self@.len() >= 1 ==> r@.len() == self@.len() - 1,
    {
        self.to_scale_in_steps()
    }
}

/// Builds a scale of family `Q` in its step representation, from the
/// family's canonical pattern.
pub fn scale_in_steps<Q: ScaleQuality>() -> (r: ScaleInSteps<Q>)
    ensures
        step_ints(r@) == Q::spec_pattern(),
        r@.len() == Q::spec_pattern().len(),
{
    Scale::new(Q::pattern())
}

/// Builds a scale of family `Q` in its interval representation: the
/// running totals of the family's canonical pattern.
pub fn scale_in_intervals<Q: ScaleQuality>() -> (r: ScaleInIntervals<Q>)
    ensures
        interval_ints(r@) == intervals_from_steps(Q::spec_pattern()),
        r@.len() == Q::spec_pattern().len(),
{
    proof {
        Q::pattern_wf();
    }
    let steps = scale_in_steps::<Q>();
    steps.into_scale_in_intervals()
}

/// Builds a scale of family `Q` in its pitch representation: the root,
/// then the family's canonical pattern applied step by step.
pub fn scale_in_pitches<Q: ScaleQuality>(root: Pitch) -> (r: ScaleInPitches<Q>)
    requires
        root.0 + total(Q::spec_pattern()) <= u8::MAX,
    ensures
        pitch_ints(r@) == pitches_from_steps(root.0 as int, Q::spec_pattern()),
        r@.len() == Q::spec_pattern().len() + 1,
{
    let steps = scale_in_steps::<Q>();
    steps.into_scale_in_pitches(root)
}

} // verus!
