//! Heptatonic scale families: seven steps spanning one octave.
//!
//! Each family fixes its canonical step pattern as a quality type and
//! offers convenience builders for the three representations. The major
//! pattern is whole, whole, half, whole, whole, whole, half; the natural
//! minor pattern is whole, half, whole, whole, half, whole, whole. Both
//! patterns total twelve semitones, one octave.

use vstd::prelude::*;

use crate::interval::interval_ints;
use crate::pitch::Pitch;
use crate::pitch::pitch_ints;
use crate::scale::ScaleInIntervals;
use crate::scale::ScaleInPitches;
use crate::scale::ScaleInSteps;
use crate::scale::ScaleQuality;
use crate::scale::ValidateScaleIntervals;
use crate::scale::ValidateScaleLength;
use crate::scale::ValidateScalePitches;
use crate::scale::ValidateScaleSteps;
use crate::scale::scale_in_intervals;
use crate::scale::scale_in_pitches;
use crate::scale::scale_in_steps;
use crate::semitones::intervals_from_steps;
use crate::semitones::lemma_total_take_succ;
use crate::semitones::pitches_from_steps;
use crate::semitones::total;
use crate::step::Step;
use crate::step::step_ints;

verus! {

/// The major scale family: whole, whole, half, whole, whole, whole,
/// half.
#[derive(Debug, PartialEq, Eq)]
pub struct MajorQuality;

/// The natural minor scale family: whole, half, whole, whole, half,
/// whole, whole.
#[derive(Debug, PartialEq, Eq)]
pub struct NaturalMinorQuality;

/// A major scale in its step representation.
pub type MajorScaleSteps = ScaleInSteps<MajorQuality>;

/// A major scale in its interval representation.
pub type MajorScaleIntervals = ScaleInIntervals<MajorQuality>;

/// A major scale in its pitch representation.
pub type MajorScalePitches = ScaleInPitches<MajorQuality>;

/// A natural minor scale in its step representation.
pub type NaturalMinorScaleSteps = ScaleInSteps<NaturalMinorQuality>;

/// A natural minor scale in its interval representation.
pub type NaturalMinorScaleIntervals = ScaleInIntervals<NaturalMinorQuality>;

/// A natural minor scale in its pitch representation.
pub type NaturalMinorScalePitches = ScaleInPitches<NaturalMinorQuality>;

/// The major pattern totals one octave of twelve semitones.
proof fn lemma_major_pattern_total()
    ensures
        total(MajorQuality::spec_pattern()) == 12,
{
    let p = MajorQuality::spec_pattern();
    assert(p.take(0) =~= Seq::<int>::empty());
    lemma_total_take_succ(p, 0);
    lemma_total_take_succ(p, 1);
    lemma_total_take_succ(p, 2);
    lemma_total_take_succ(p, 3);
    lemma_total_take_succ(p, 4);
    lemma_total_take_succ(p, 5);
    lemma_total_take_succ(p, 6);
    assert(p.take(7) =~= p);
}

/// The natural minor pattern totals one octave of twelve semitones.
proof fn lemma_naturalminor_pattern_total()
    ensures
        total(NaturalMinorQuality::spec_pattern()) == 12,
{
    let p = NaturalMinorQuality::spec_pattern();
    assert(p.take(0) =~= Seq::<int>::empty());
    lemma_total_take_succ(p, 0);
    lemma_total_take_succ(p, 1);
    lemma_total_take_succ(p, 2);
    lemma_total_take_succ(p, 3);
    lemma_total_take_succ(p, 4);
    lemma_total_take_succ(p, 5);
    lemma_total_take_succ(p, 6);
    assert(p.take(7) =~= p);
}

impl ScaleQuality for MajorQuality {
    open spec fn spec_steps_length() -> nat {
        7
    }

    open spec fn spec_pattern() -> Seq<int> {
        seq![2, 2, 1, 2, 2, 2, 1]
    }

    proof fn pattern_wf() {
        lemma_major_pattern_total();
    }

    fn steps_length() -> usize {
        7
    }

    fn pitches_length() -> usize {
        8
    }

    fn pattern() -> (r: Vec<Step>) {
        let r: Vec<Step> = vec![Step(2), Step(2), Step(1), Step(2), Step(2), Step(2), Step(1)];
        proof {
            assert(step_ints(r@) =~= Self::spec_pattern());
        }
        r
    }
}

impl ValidateScaleLength for MajorQuality {
    open spec fn spec_min_length() -> nat {
        7
    }

    open spec fn spec_max_length() -> nat {
        7
    }

    fn min_length() -> usize {
        7
    }

    fn max_length() -> usize {
        7
    }
}

impl ValidateScaleSteps for MajorQuality {

}

impl ValidateScaleIntervals for MajorQuality {

}

impl ValidateScalePitches for MajorQuality {

}

impl ScaleQuality for NaturalMinorQuality {
    open spec fn spec_steps_length() -> nat {
        7
    }

    open spec fn spec_pattern() -> Seq<int> {
        seq![2, 1, 2, 2, 1, 2, 2]
    }

    proof fn pattern_wf() {
        lemma_naturalminor_pattern_total();
    }

    fn steps_length() -> usize {
        7
    }

    fn pitches_length() -> usize {
        8
    }

    fn pattern() -> (r: Vec<Step>) {
        let r: Vec<Step> = vec![Step(2), Step(1), Step(2), Step(2), Step(1), Step(2), Step(2)];
        proof {
            assert(step_ints(r@) =~= Self::spec_pattern());
        }
        r
    }
}

impl ValidateScaleLength for NaturalMinorQuality {
    open spec fn spec_min_length() -> nat {
        7
    }

    open spec fn spec_max_length() -> nat {
        7
    }

    fn min_length() -> usize {
        7
    }

    fn max_length() -> usize {
        7
    }
}

impl ValidateScaleSteps for NaturalMinorQuality {

}

impl ValidateScaleIntervals for NaturalMinorQuality {

}

impl ValidateScalePitches for NaturalMinorQuality {

}

/// The canonical major step pattern, whole, whole, half, whole, whole,
/// whole, half, as a sequence of steps.
pub fn major_scale_steps() -> (r: Vec<Step>)
    ensures
        step_ints(r@) == MajorQuality::spec_pattern(),
{
    MajorQuality::pattern()
}

/// The canonical natural minor step pattern, whole, half, whole, whole,
/// half, whole, whole, as a sequence of steps.
pub fn naturalminor_scale_steps() -> (r: Vec<Step>)
    ensures
        step_ints(r@) == NaturalMinorQuality::spec_pattern(),
{
    NaturalMinorQuality::pattern()
}

/// A major scale in steps: the canonical major pattern itself.
pub fn major_scale_in_steps() -> (r: MajorScaleSteps)
    ensures
        step_ints(r@) == MajorQuality::spec_pattern(),
        r@.len() == 7,
{
    scale_in_steps::<MajorQuality>()
}

/// A major scale in intervals: the running totals of the major pattern.
pub fn major_scale_in_intervals() -> (r: MajorScaleIntervals)
    ensures
        interval_ints(r@) == intervals_from_steps(MajorQuality::spec_pattern()),
        r@.len() == 7,
{
    scale_in_intervals::<MajorQuality>()
}

/// A major scale in pitches from the given root. The root must leave
/// room for the octave the pattern spans.
pub fn major_scale_in_pitches(root: Pitch) -> (r: MajorScalePitches)
    requires
        root.0 + 12 <= u8::MAX,
    ensures
        pitch_ints(r@) == pitches_from_steps(root.0 as int, MajorQuality::spec_pattern()),
        r@.len() == 8,
{
    proof {
        lemma_major_pattern_total();
    }
    scale_in_pitches::<MajorQuality>(root)
}

/// The major scale starting at the given root; an alias for
/// [`major_scale_in_pitches`].
pub fn major_scale(root: Pitch) -> (r: MajorScalePitches)
    requires
        root.0 + 12 <= u8::MAX,
    ensures
        pitch_ints(r@) == pitches_from_steps(root.0 as int, MajorQuality::spec_pattern()),
        r@.len() == 8,
{
    major_scale_in_pitches(root)
}

/// A natural minor scale in steps: the canonical natural minor pattern
/// itself.
pub fn naturalminor_scale_in_steps() -> (r: NaturalMinorScaleSteps)
    ensures
        step_ints(r@) == NaturalMinorQuality::spec_pattern(),
        r@.len() == 7,
{
    scale_in_steps::<NaturalMinorQuality>()
}

/// A natural minor scale in intervals: the running totals of the
/// natural minor pattern.
pub fn naturalminor_scale_in_intervals() -> (r: NaturalMinorScaleIntervals)
    ensures
        interval_ints(r@) == intervals_from_steps(NaturalMinorQuality::spec_pattern()),
        r@.len() == 7,
{
    scale_in_intervals::<NaturalMinorQuality>()
}

/// A natural minor scale in pitches from the given root. The root must
/// leave room for the octave the pattern spans.
pub fn naturalminor_scale_in_pitches(root: Pitch) -> (r: NaturalMinorScalePitches)
    requires
        root.0 + 12 <= u8::MAX,
    ensures
        pitch_ints(r@) == pitches_from_steps(root.0 as int, NaturalMinorQuality::spec_pattern()),
        r@.len() == 8,
{
    proof {
        lemma_naturalminor_pattern_total();
    }
    scale_in_pitches::<NaturalMinorQuality>(root)
}

/// The natural minor scale starting at the given root; an alias for
/// [`naturalminor_scale_in_pitches`].
pub fn naturalminor_scale(root: Pitch) -> (r: NaturalMinorScalePitches)
    requires
        root.0 + 12 <= u8::MAX,
    ensures
        pitch_ints(r@) == pitches_from_steps(root.0 as int, NaturalMinorQuality::spec_pattern()),
        r@.len() == 8,
{
    naturalminor_scale_in_pitches(root)
}

} // verus!
