//! Steps: the distance between two adjacent scale degrees.

use vstd::prelude::*;

use crate::convert::IntoIntervals;
use crate::convert::IntoPitches;
use crate::interval::Interval;
use crate::interval::interval_ints;
use crate::pitch::Pitch;
use crate::pitch::pitch_ints;
use crate::semitones::intervals_from_steps;
use crate::semitones::lemma_total_take_bound;
use crate::semitones::lemma_total_take_succ;
use crate::semitones::nonneg;
use crate::semitones::pitches_from_steps;
use crate::semitones::total;

verus! {

/// A step: the distance between two *adjacent* scale degrees, counted in
/// semitones. It is the smallest musical move; a half step is one
/// semitone, a whole step two.
#[derive(Debug, Clone, Copy, PartialEq, Eq, Structural)]
pub struct Step(pub u8);

/// The semitone counts of a step sequence, as mathematical integers.
pub open spec fn step_ints(s: Seq<Step>) -> Seq<int> {
    Seq::new(s.len(), |i: int| s[i].0 as int)
}

impl Step {
    /// Creates a step of the given semitone count. Any count in the `u8`
    /// range is accepted; no musical validation is performed.
    pub fn new(semitones: u8) -> (r: Self)
        ensures
            r.0 == semitones,
    {
        Step(semitones)
    }

    /// The semitone count of this step.
    pub fn semitones(&self) -> (r: u8)
        ensures
            r == self.0,
    {
        self.0
    }
}

impl Default for Step {
    /// The default step is a unison: no movement at all.
    fn default() -> (r: Self)
        ensures
            r.0 == 0,
    {
        Step(0)
    }
}

impl From<Interval> for Step {
    /// An interval reinterpreted as a step: the semitone count carries
    /// over unchanged.
    fn from(interval: Interval) -> (r: Self) {
        Step(interval.0)
    }
}

impl vstd::std_specs::convert::FromSpecImpl<Interval> for Step {
    open spec fn obeys_from_spec() -> bool {
        true
    }

    open spec fn from_spec(interval: Interval) -> Step {
        Step(interval.0)
    }
}

impl PartialOrd for Step {
    /// Steps are totally ordered by their semitone count.
    fn partial_cmp(&self, other: &Step) -> (r: Option<core::cmp::Ordering>) {
        if self.0 < other.0 {
            Some(core::cmp::Ordering::Less)
        } else if self.0 == other.0 {
            Some(core::cmp::Ordering::Equal)
        } else {
            Some(core::cmp::Ordering::Greater)
        }
    }
}

impl vstd::std_specs::cmp::PartialOrdSpecImpl for Step {
    open spec fn obeys_partial_cmp_spec() -> bool {
        true
    }

    open spec fn partial_cmp_spec(&self, other: &Step) -> Option<core::cmp::Ordering> {
        if self.0 < other.0 {
            Some(core::cmp::Ordering::Less)
        } else if self.0 == other.0 {
            Some(core::cmp::Ordering::Equal)
        } else {
            Some(core::cmp::Ordering::Greater)
        }
    }
}

impl IntoIntervals for Vec<Step> {
    /// Running totals stay representable as long as the total of all
    /// steps does.
    open spec fn intervals_allowed(&self) -> bool {
        total(step_ints(self@)) <= u8::MAX
    }

    open spec fn intervals_result(&self) -> Seq<int> {
        intervals_from_steps(step_ints(self@))
    }

    /// Accumulates the steps: each interval is the sum of the steps up
    /// to and including its own position.
    fn into_intervals(&self) -> (r: Vec<Interval>) {
        let ghost s = step_ints(self@);
        let mut r: Vec<Interval> = Vec::new();
        let mut acc: u8 = 0;
        let mut i: usize = 0;
        proof {
            assert(s.take(0) =~= Seq::<int>::empty());
        }
        while i < self.len()
            invariant
                i <= self.len(),
                s == step_ints(self@),
                total(s) <= u8::MAX,
                acc as int == total(s.take(i as int)),
                r@.len() == i,
                interval_ints(r@) == intervals_from_steps(s).take(i as int),
            decreases self.len() - i,
        {
            proof {
                assert(nonneg(s));
                lemma_total_take_succ(s, i as int);
                lemma_total_take_bound(s, i as int + 1);
            }
            acc = acc + self[i].semitones();
            r.push(Interval::new(acc));
            i = i + 1;
            proof {
                assert(interval_ints(r@) =~= intervals_from_steps(s).take(i as int));
            }
        }
        proof {
            assert(s.take(s.len() as int) =~= s);
            assert(interval_ints(r@) =~= intervals_from_steps(s));
        }
        r
    }
}

impl IntoPitches for Vec<Step> {
    /// Every pitch along the way stays representable as long as the
    /// root raised by the total of all steps does.
    open spec fn pitches_allowed(&self, root: Pitch) -> bool {
        root.0 + total(step_ints(self@)) <= u8::MAX
    }

    open spec fn pitches_result(&self, root: Pitch) -> Seq<int> {
        pitches_from_steps(root.0 as int, step_ints(self@))
    }

    /// Walks upward from the root: the root comes first, and each step
    /// raises the pitch before it.
    fn into_pitches(&self, root: Pitch) -> (r: Vec<Pitch>) {
        let ghost s = step_ints(self@);
        let mut r: Vec<Pitch> = Vec::new();
        let mut cur: u8 = root.semitones();
        r.push(root);
        let mut i: usize = 0;
        proof {
            assert(s.take(0) =~= Seq::<int>::empty());
            assert(pitch_ints(r@) =~= pitches_from_steps(root.0 as int, s).take(1));
        }
        while i < self.len()
            invariant
                i <= self.len(),
                s == step_ints(self@),
                root.0 + total(s) <= u8::MAX,
                cur as int == root.0 + total(s.take(i as int)),
                r@.len() == i + 1,
                pitch_ints(r@) == pitches_from_steps(root.0 as int, s).take(i as int + 1),
            decreases self.len() - i,
        {
            proof {
                assert(nonneg(s));
                lemma_total_take_succ(s, i as int);
                lemma_total_take_bound(s, i as int + 1);
            }
            cur = cur + self[i].semitones();
            r.push(Pitch::new(cur));
            i = i + 1;
            proof {
                assert(pitch_ints(r@) =~= pitches_from_steps(root.0 as int, s).take(i as int + 1));
            }
        }
        proof {
            assert(s.take(s.len() as int) =~= s);
            assert(pitch_ints(r@) =~= pitches_from_steps(root.0 as int, s));
        }
        r
    }
}

} // verus!
