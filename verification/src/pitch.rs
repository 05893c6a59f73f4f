//! Pitches: absolute note positions.

use vstd::prelude::*;

use crate::convert::IntoIntervals;
use crate::convert::IntoSteps;
use crate::interval::Interval;
use crate::interval::interval_ints;
use crate::semitones::ascending;
use crate::semitones::intervals_from_pitches;
use crate::semitones::rooted;
use crate::semitones::steps_from_pitches;
use crate::step::Step;
use crate::step::step_ints;

verus! {

/// A pitch: an absolute note position, counted in semitones as a MIDI
/// note number. Middle C is 60; the MIDI convention covers 0 to 127,
/// though any count in the `u8` range is representable.
#[derive(Debug, Clone, Copy, PartialEq, Eq, Structural)]
pub struct Pitch(pub u8);

/// The semitone counts of a pitch sequence, as mathematical integers.
pub open spec fn pitch_ints(s: Seq<Pitch>) -> Seq<int> {
    Seq::new(s.len(), |i: int| s[i].0 as int)
}

impl Pitch {
    /// Creates a pitch at the given MIDI note number. Any number in the
    /// `u8` range is accepted; no musical validation is performed.
    pub fn new(semitones: u8) -> (r: Self)
        ensures
            r.0 == semitones,
    {
        Pitch(semitones)
    }

    /// The MIDI note number of this pitch.
    pub fn semitones(&self) -> (r: u8)
        ensures
            r == self.0,
    {
        self.0
    }
}

impl Default for Pitch {
    /// The default pitch is middle C (MIDI note 60).
    fn default() -> (r: Self)
        ensures
            r.0 == 60,
    {
        Pitch(60)
    }
}

impl core::ops::Add<Step> for Pitch {
    type Output = Pitch;

    /// Raises the pitch by a step. The raised note number must stay in
    /// the `u8` range.
    fn add(self, rhs: Step) -> (r: Pitch) {
        Pitch(self.0 + rhs.0)
    }
}

impl vstd::std_specs::ops::AddSpecImpl<Step> for Pitch {
    open spec fn obeys_add_spec() -> bool {
        true
    }

    open spec fn add_req(self, rhs: Step) -> bool {
        self.0 + rhs.0 <= u8::MAX
    }

    open spec fn add_spec(self, rhs: Step) -> Pitch {
        Pitch((self.0 + rhs.0) as u8)
    }
}

impl core::ops::Sub<Step> for Pitch {
    type Output = Pitch;

    /// Lowers the pitch by a step. The step must not reach below note
    /// number zero.
    fn sub(self, rhs: Step) -> (r: Pitch) {
        Pitch(self.0 - rhs.0)
    }
}

impl vstd::std_specs::ops::SubSpecImpl<Step> for Pitch {
    open spec fn obeys_sub_spec() -> bool {
        true
    }

    open spec fn sub_req(self, rhs: Step) -> bool {
        rhs.0 <= self.0
    }

    open spec fn sub_spec(self, rhs: Step) -> Pitch {
        Pitch((self.0 - rhs.0) as u8)
    }
}

impl core::ops::Sub<Pitch> for Pitch {
    type Output = Step;

    /// The step between two pitches: subtracting the lower pitch from
    /// the higher one yields their distance as a step.
    fn sub(self, rhs: Pitch) -> (r: Step) {
        Step(self.0 - rhs.0)
    }
}

impl vstd::std_specs::ops::SubSpecImpl<Pitch> for Pitch {
    open spec fn obeys_sub_spec() -> bool {
        true
    }

    open spec fn sub_req(self, rhs: Pitch) -> bool {
        rhs.0 <= self.0
    }

    open spec fn sub_spec(self, rhs: Pitch) -> Step {
        Step((self.0 - rhs.0) as u8)
    }
}

impl PartialOrd for Pitch {
    /// Pitches are totally ordered by their note number.
    fn partial_cmp(&self, other: &Pitch) -> (r: Option<core::cmp::Ordering>) {
        if self.0 < other.0 {
            Some(core::cmp::Ordering::Less)
        } else if self.0 == other.0 {
            Some(core::cmp::Ordering::Equal)
        } else {
            Some(core::cmp::Ordering::Greater)
        }
    }
}

impl vstd::std_specs::cmp::PartialOrdSpecImpl for Pitch {
    open spec fn obeys_partial_cmp_spec() -> bool {
        true
    }

    open spec fn partial_cmp_spec(&self, other: &Pitch) -> Option<core::cmp::Ordering> {
        if self.0 < other.0 {
            Some(core::cmp::Ordering::Less)
        } else if self.0 == other.0 {
            Some(core::cmp::Ordering::Equal)
        } else {
            Some(core::cmp::Ordering::Greater)
        }
    }
}

impl IntoIntervals for Vec<Pitch> {
    /// Every root-relative distance is representable as long as no
    /// pitch lies below the first one.
    open spec fn intervals_allowed(&self) -> bool {
        rooted(pitch_ints(self@))
    }

    open spec fn intervals_result(&self) -> Seq<int> {
        intervals_from_pitches(pitch_ints(self@))
    }

    /// Measures each later pitch against the first one: interval `i` is
    /// the distance of pitch `i + 1` from the root pitch. No pitches, or
    /// the root alone, yield no intervals.
    fn into_intervals(&self) -> (r: Vec<Interval>) {
        let ghost p = pitch_ints(self@);
        let mut r: Vec<Interval> = Vec::new();
        if self.len() == 0 {
            proof {
                assert(interval_ints(r@) =~= intervals_from_pitches(p));
            }
            return r;
        }
        let root = self[0].semitones();
        let mut i: usize = 1;
        while i < self.len()
            invariant
                1 <= i <= self.len(),
                p == pitch_ints(self@),
                rooted(p),
                1 <= p.len(),
                root == p[0],
                r@.len() == i - 1,
                interval_ints(r@) == intervals_from_pitches(p).take(i as int - 1),
            decreases self.len() - i,
        {
            proof {
                assert(p[i as int] == self@[i as int].0 as int);
                assert(p[0] <= p[i as int]);
            }
            r.push(Interval::new(self[i].semitones() - root));
            i = i + 1;
            proof {
                assert(interval_ints(r@) =~= intervals_from_pitches(p).take(i as int - 1));
            }
        }
        proof {
            assert(interval_ints(r@) =~= intervals_from_pitches(p));
        }
        r
    }
}

impl IntoSteps for Vec<Pitch> {
    /// Every adjacent distance is representable as long as the pitches
    /// never descend.
    open spec fn steps_allowed(&self) -> bool {
        ascending(pitch_ints(self@))
    }

    open spec fn steps_result(&self) -> Seq<int> {
        steps_from_pitches(pitch_ints(self@))
    }

    /// Measures each pitch against its predecessor: step `i` is the
    /// distance from pitch `i` to pitch `i + 1`. No pitches, or a single
    /// pitch, yield no steps.
    fn into_steps(&self) -> (r: Vec<Step>) {
        let ghost p = pitch_ints(self@);
        let mut r: Vec<Step> = Vec::new();
        if self.len() == 0 {
            proof {
                assert(step_ints(r@) =~= steps_from_pitches(p));
            }
            return r;
        }
        let mut prev = self[0].semitones();
        let mut i: usize = 1;
        while i < self.len()
            invariant
                1 <= i <= self.len(),
                p == pitch_ints(self@),
                ascending(p),
                1 <= p.len(),
                prev as int == p[i as int - 1],
                r@.len() == i - 1,
                step_ints(r@) == steps_from_pitches(p).take(i as int - 1),
            decreases self.len() - i,
        {
            let cur = self[i].semitones();
            proof {
                assert(p[i as int] == self@[i as int].0 as int);
                assert(p[i as int - 1] <= p[i as int]);
            }
            r.push(Step::new(cur - prev));
            prev = cur;
            i = i + 1;
            proof {
                assert(step_ints(r@) =~= steps_from_pitches(p).take(i as int - 1));
            }
        }
        proof {
            assert(step_ints(r@) =~= steps_from_pitches(p));
        }
        r
    }
}

} // verus!
