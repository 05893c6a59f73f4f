//! Named values for conventional steps, intervals and pitches.
//!
//! Each conventional name is an argument-free constructor function
//! whose contract pins the semitone count it stands for, so verified
//! callers know the exact value they receive.

use vstd::prelude::*;

use crate::interval::Interval;
use crate::pitch::Pitch;
use crate::step::Step;

verus! {

// Steps.

/// A unison step: no movement (0 semitones).
pub fn unison() -> (r: Step)
    ensures
        r.0 == 0,
{
    Step(0)
}

/// A half step (1 semitone).
pub fn half() -> (r: Step)
    ensures
        r.0 == 1,
{
    Step(1)
}

/// A whole step (2 semitones).
pub fn whole() -> (r: Step)
    ensures
        r.0 == 2,
{
    Step(2)
}

/// A whole-and-half step (3 semitones).
pub fn whole_and_half() -> (r: Step)
    ensures
        r.0 == 3,
{
    Step(3)
}

/// An alternative name for a half step (1 semitone).
pub fn semitone() -> (r: Step)
    ensures
        r.0 == 1,
{
    Step(1)
}

/// An alternative name for a whole step (2 semitones).
pub fn tone() -> (r: Step)
    ensures
        r.0 == 2,
{
    Step(2)
}

// Intervals.

/// A perfect unison (0 semitones).
pub fn perfect_unison() -> (r: Interval)
    ensures
        r.0 == 0,
{
    Interval(0)
}

/// A minor second (1 semitone).
pub fn minor_second() -> (r: Interval)
    ensures
        r.0 == 1,
{
    Interval(1)
}

/// A major second (2 semitones).
pub fn major_second() -> (r: Interval)
    ensures
        r.0 == 2,
{
    Interval(2)
}

/// A minor third (3 semitones).
pub fn minor_third() -> (r: Interval)
    ensures
        r.0 == 3,
{
    Interval(3)
}

/// A major third (4 semitones).
pub fn major_third() -> (r: Interval)
    ensures
        r.0 == 4,
{
    Interval(4)
}

/// A perfect fourth (5 semitones).
pub fn perfect_fourth() -> (r: Interval)
    ensures
        r.0 == 5,
{
    Interval(5)
}

/// An augmented fourth (6 semitones).
pub fn augmented_fourth() -> (r: Interval)
    ensures
        r.0 == 6,
{
    Interval(6)
}

/// A diminished fifth (6 semitones).
pub fn diminished_fifth() -> (r: Interval)
    ensures
        r.0 == 6,
{
    Interval(6)
}

/// A perfect fifth (7 semitones).
pub fn perfect_fifth() -> (r: Interval)
    ensures
        r.0 == 7,
{
    Interval(7)
}

/// A minor sixth (8 semitones).
pub fn minor_sixth() -> (r: Interval)
    ensures
        r.0 == 8,
{
    Interval(8)
}

/// A major sixth (9 semitones).
pub fn major_sixth() -> (r: Interval)
    ensures
        r.0 == 9,
{
    Interval(9)
}

/// A minor seventh (10 semitones).
pub fn minor_seventh() -> (r: Interval)
    ensures
        r.0 == 10,
{
    Interval(10)
}

/// A major seventh (11 semitones).
pub fn major_seventh() -> (r: Interval)
    ensures
        r.0 == 11,
{
    Interval(11)
}

/// A perfect octave (12 semitones).
pub fn perfect_octave() -> (r: Interval)
    ensures
        r.0 == 12,
{
    Interval(12)
}

// Pitches of octave 4, the octave of middle C, and the C above it.

/// C4, middle C (MIDI note 60).
pub fn c4() -> (r: Pitch)
    ensures
        r.0 == 60,
{
    Pitch(60)
}

/// C sharp 4 (MIDI note 61).
pub fn csharp4() -> (r: Pitch)
    ensures
        r.0 == 61,
{
    Pitch(61)
}

/// D flat 4, enharmonic with C sharp 4 (MIDI note 61).
pub fn dflat4() -> (r: Pitch)
    ensures
        r.0 == 61,
{
    Pitch(61)
}

/// D4 (MIDI note 62).
pub fn d4() -> (r: Pitch)
    ensures
        r.0 == 62,
{
    Pitch(62)
}

/// D sharp 4 (MIDI note 63).
pub fn dsharp4() -> (r: Pitch)
    ensures
        r.0 == 63,
{
    Pitch(63)
}

/// E flat 4, enharmonic with D sharp 4 (MIDI note 63).
pub fn eflat4() -> (r: Pitch)
    ensures
        r.0 == 63,
{
    Pitch(63)
}

/// E4 (MIDI note 64).
pub fn e4() -> (r: Pitch)
    ensures
        r.0 == 64,
{
    Pitch(64)
}

/// F4 (MIDI note 65).
pub fn f4() -> (r: Pitch)
    ensures
        r.0 == 65,
{
    Pitch(65)
}

/// F sharp 4 (MIDI note 66).
pub fn fsharp4() -> (r: Pitch)
    ensures
        r.0 == 66,
{
    Pitch(66)
}

/// G flat 4, enharmonic with F sharp 4 (MIDI note 66).
pub fn gflat4() -> (r: Pitch)
    ensures
        r.0 == 66,
{
    Pitch(66)
}

/// G4 (MIDI note 67).
pub fn g4() -> (r: Pitch)
    ensures
        r.0 == 67,
{
    Pitch(67)
}

/// G sharp 4 (MIDI note 68).
pub fn gsharp4() -> (r: Pitch)
    ensures
        r.0 == 68,
{
    Pitch(68)
}

/// A flat 4, enharmonic with G sharp 4 (MIDI note 68).
pub fn aflat4() -> (r: Pitch)
    ensures
        r.0 == 68,
{
    Pitch(68)
}

/// A4, concert pitch (MIDI note 69).
pub fn a4() -> (r: Pitch)
    ensures
        r.0 == 69,
{
    Pitch(69)
}

/// A sharp 4 (MIDI note 70).
pub fn asharp4() -> (r: Pitch)
    ensures
        r.0 == 70,
{
    Pitch(70)
}

/// B flat 4, enharmonic with A sharp 4 (MIDI note 70).
pub fn bflat4() -> (r: Pitch)
    ensures
        r.0 == 70,
{
    Pitch(70)
}

/// B4 (MIDI note 71).
pub fn b4() -> (r: Pitch)
    ensures
        r.0 == 71,
{
    Pitch(71)
}

/// C5, the C above middle C (MIDI note 72).
pub fn c5() -> (r: Pitch)
    ensures
        r.0 == 72,
{
    Pitch(72)
}

} // verus!
