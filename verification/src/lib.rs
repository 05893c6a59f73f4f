//! Music-theory primitives: pitches, intervals and steps, counted in
//! semitones, together with fixed-pattern scales built from them.
//!
//! The three value types describe one musical line in three ways:
//!
//! - a [`Step`] is the distance between two *adjacent* scale degrees;
//! - an [`Interval`] is the cumulative distance of a degree from the
//!   first one;
//! - a [`Pitch`] is an absolute note position (a MIDI note number).
//!
//! Sequences of one representation convert into the others through
//! [`IntoIntervals`], [`IntoSteps`] and [`IntoPitches`], and a
//! [`Scale`] wraps such a sequence under a quality tag (major, natural
//! minor, ...). Every conversion is specified against the
//! semitone-sequence algebra in [`semitones`], and the round-trip,
//! length and root-independence laws of that algebra are proved in
//! [`laws`].

pub mod laws;
pub mod semitones;

mod constants;
mod convert;
mod heptatonic;
mod interval;
mod pitch;
mod scale;
mod step;

pub use pitch::Pitch;
pub use pitch::pitch_ints;

pub use interval::Interval;
pub use interval::interval_ints;

pub use step::Step;
pub use step::step_ints;

pub use convert::IntoIntervals;
pub use convert::IntoPitches;
pub use convert::IntoSteps;

pub use scale::Scale;
pub use scale::ScaleInIntervals;
pub use scale::ScaleInPitches;
pub use scale::ScaleInSteps;
pub use scale::ScaleQuality;
pub use scale::ValidateScaleIntervals;
pub use scale::ValidateScaleLength;
pub use scale::ValidateScalePitches;
pub use scale::ValidateScaleSteps;
pub use scale::scale_in_intervals;
pub use scale::scale_in_pitches;
pub use scale::scale_in_steps;

pub use heptatonic::MajorQuality;
pub use heptatonic::MajorScaleIntervals;
pub use heptatonic::MajorScalePitches;
pub use heptatonic::MajorScaleSteps;
pub use heptatonic::NaturalMinorQuality;
pub use heptatonic::NaturalMinorScaleIntervals;
pub use heptatonic::NaturalMinorScalePitches;
pub use heptatonic::NaturalMinorScaleSteps;
pub use heptatonic::major_scale;
pub use heptatonic::major_scale_in_intervals;
pub use heptatonic::major_scale_in_pitches;
pub use heptatonic::major_scale_in_steps;
pub use heptatonic::major_scale_steps;
pub use heptatonic::naturalminor_scale;
pub use heptatonic::naturalminor_scale_in_intervals;
pub use heptatonic::naturalminor_scale_in_pitches;
pub use heptatonic::naturalminor_scale_in_steps;
pub use heptatonic::naturalminor_scale_steps;

pub use constants::a4;
pub use constants::aflat4;
pub use constants::asharp4;
pub use constants::augmented_fourth;
pub use constants::b4;
pub use constants::bflat4;
pub use constants::c4;
pub use constants::c5;
pub use constants::csharp4;
pub use constants::d4;
pub use constants::dflat4;
pub use constants::diminished_fifth;
pub use constants::dsharp4;
pub use constants::e4;
pub use constants::eflat4;
pub use constants::f4;
pub use constants::fsharp4;
pub use constants::g4;
pub use constants::gflat4;
pub use constants::gsharp4;
pub use constants::half;
pub use constants::major_second;
pub use constants::major_seventh;
pub use constants::major_sixth;
pub use constants::major_third;
pub use constants::minor_second;
pub use constants::minor_seventh;
pub use constants::minor_sixth;
pub use constants::minor_third;
pub use constants::perfect_fifth;
pub use constants::perfect_fourth;
pub use constants::perfect_octave;
pub use constants::perfect_unison;
pub use constants::semitone;
pub use constants::tone;
pub use constants::unison;
pub use constants::whole;
pub use constants::whole_and_half;
