//! Intervals: the cumulative distance from a reference pitch.

use vstd::prelude::*;

use crate::convert::IntoPitches;
use crate::convert::IntoSteps;
use crate::pitch::Pitch;
use crate::pitch::pitch_ints;
use crate::semitones::ascending;
use crate::semitones::pitches_from_intervals;
use crate::semitones::steps_from_intervals;
use crate::step::Step;
use crate::step::step_ints;

verus! {

/// An interval: the distance between two *arbitrary* pitches, counted in
/// semitones and measured cumulatively from a reference point. A step and
/// an interval share the numeric representation; they differ in meaning
/// (local move against cumulative distance).
#[derive(Debug, Clone, Copy, PartialEq, Eq, Structural)]
pub struct Interval(pub u8);

/// The semitone counts of an interval sequence, as mathematical integers.
pub open spec fn interval_ints(s: Seq<Interval>) -> Seq<int> {
    Seq::new(s.len(), |i: int| s[i].0 as int)
}

impl Interval {
    /// Creates an interval of the given semitone count. Any count in the
    /// `u8` range is accepted; no musical validation is performed.
    pub fn new(semitones: u8) -> (r: Self)
        ensures
            r.0 == semitones,
    {
        Interval(semitones)
    }

    /// The semitone count of this interval.
    pub fn semitones(&self) -> (r: u8)
        ensures
            r == self.0,
    {
        self.0
    }
}

impl Default for Interval {
    /// The default interval is a perfect unison: no distance at all.
    fn default() -> (r: Self)
        ensures
            r.0 == 0,
    {
        Interval(0)
    }
}

impl From<Step> for Interval {
    /// A step reinterpreted as an interval: the semitone count carries
    /// over unchanged.
    fn from(step: Step) -> (r: Self) {
        Interval(step.0)
    }
}

impl vstd::std_specs::convert::FromSpecImpl<Step> for Interval {
    open spec fn obeys_from_spec() -> bool {
        true
    }

    open spec fn from_spec(step: Step) -> Interval {
        Interval(step.0)
    }
}

impl core::ops::Add<Step> for Interval {
    type Output = Interval;

    /// Widens the interval by a step. The summed count must stay in the
    /// `u8` range.
    fn add(self, rhs: Step) -> (r: Interval) {
        Interval(self.0 + rhs.0)
    }
}

impl vstd::std_specs::ops::AddSpecImpl<Step> for Interval {
    open spec fn obeys_add_spec() -> bool {
        true
    }

    open spec fn add_req(self, rhs: Step) -> bool {
        self.0 + rhs.0 <= u8::MAX
    }

    open spec fn add_spec(self, rhs: Step) -> Interval {
        Interval((self.0 + rhs.0) as u8)
    }
}

impl core::ops::Sub<Step> for Interval {
    type Output = Interval;

    /// Narrows the interval by a step. The step must not exceed the
    /// interval.
    fn sub(self, rhs: Step) -> (r: Interval) {
        Interval(self.0 - rhs.0)
    }
}

impl vstd::std_specs::ops::SubSpecImpl<Step> for Interval {
    open spec fn obeys_sub_spec() -> bool {
        true
    }

    open spec fn sub_req(self, rhs: Step) -> bool {
        rhs.0 <= self.0
    }

    open spec fn sub_spec(self, rhs: Step) -> Interval {
        Interval((self.0 - rhs.0) as u8)
    }
}

impl core::ops::Sub<Interval> for Interval {
    type Output = Step;

    /// The step between two intervals: subtracting the nearer interval
    /// from the farther one recovers the local move between them.
    fn sub(self, rhs: Interval) -> (r: Step) {
        Step(self.0 - rhs.0)
    }
}

impl vstd::std_specs::ops::SubSpecImpl<Interval> for Interval {
    open spec fn obeys_sub_spec() -> bool {
        true
    }

    open spec fn sub_req(self, rhs: Interval) -> bool {
        rhs.0 <= self.0
    }

    open spec fn sub_spec(self, rhs: Interval) -> Step {
        Step((self.0 - rhs.0) as u8)
    }
}

impl PartialOrd for Interval {
    /// Intervals are totally ordered by their semitone count.
    fn partial_cmp(&self, other: &Interval) -> (r: Option<core::cmp::Ordering>) {
        if self.0 < other.0 {
            Some(core::cmp::Ordering::Less)
        } else if self.0 == other.0 {
            Some(core::cmp::Ordering::Equal)
        } else {
            Some(core::cmp::Ordering::Greater)
        }
    }
}

impl vstd::std_specs::cmp::PartialOrdSpecImpl for Interval {
    open spec fn obeys_partial_cmp_spec() -> bool {
        true
    }

    open spec fn partial_cmp_spec(&self, other: &Interval) -> Option<core::cmp::Ordering> {
        if self.0 < other.0 {
            Some(core::cmp::Ordering::Less)
        } else if self.0 == other.0 {
            Some(core::cmp::Ordering::Equal)
        } else {
            Some(core::cmp::Ordering::Greater)
        }
    }
}

impl IntoSteps for Vec<Interval> {
    /// Each consecutive difference is representable as long as the
    /// intervals never decrease.
    open spec fn steps_allowed(&self) -> bool {
        ascending(interval_ints(self@))
    }

    open spec fn steps_result(&self) -> Seq<int> {
        steps_from_intervals(interval_ints(self@))
    }

    /// Recovers the local steps: the first interval as it stands, then
    /// the difference between each interval and the one before it.
    fn into_steps(&self) -> (r: Vec<Step>) {
        let ghost v = interval_ints(self@);
        let mut r: Vec<Step> = Vec::new();
        let mut prev: u8 = 0;
        let mut i: usize = 0;
        while i < self.len()
            invariant
                i <= self.len(),
                v == interval_ints(self@),
                ascending(v),
                i > 0 ==> prev as int == v[i as int - 1],
                r@.len() == i,
                step_ints(r@) == steps_from_intervals(v).take(i as int),
            decreases self.len() - i,
        {
            let cur = self[i].semitones();
            proof {
                assert(v[i as int] == self@[i as int].0 as int);
                if i > 0 {
                    assert(v[i as int - 1] <= v[i as int]);
                }
            }
            let step = if i == 0 {
                cur
            } else {
                cur - prev
            };
            r.push(Step::new(step));
            prev = cur;
            i = i + 1;
            proof {
                assert(step_ints(r@) =~= steps_from_intervals(v).take(i as int));
            }
        }
        proof {
            assert(step_ints(r@) =~= steps_from_intervals(v));
        }
        r
    }
}

impl IntoPitches for Vec<Interval> {
    /// Every produced pitch is representable as long as the root raised
    /// by each single interval is.
    open spec fn pitches_allowed(&self, root: Pitch) -> bool {
        forall|i: int| 0 <= i < self@.len() ==> root.0 + #[trigger] interval_ints(self@)[i]
            <= u8::MAX
    }

    open spec fn pitches_result(&self, root: Pitch) -> Seq<int> {
        pitches_from_intervals(root.0 as int, interval_ints(self@))
    }

    /// Applies each interval directly on the root: the root comes
    /// first, then the root raised by each interval in turn.
    fn into_pitches(&self, root: Pitch) -> (r: Vec<Pitch>) {
        let ghost v = interval_ints(self@);
        let mut r: Vec<Pitch> = Vec::new();
        r.push(root);
        let mut i: usize = 0;
        proof {
            assert(pitch_ints(r@) =~= pitches_from_intervals(root.0 as int, v).take(1));
        }
        while i < self.len()
            invariant
                i <= self.len(),
                v == interval_ints(self@),
                forall|j: int| 0 <= j < v.len() ==> root.0 + #[trigger] v[j] <= u8::MAX,
                r@.len() == i + 1,
                pitch_ints(r@) == pitches_from_intervals(root.0 as int, v).take(i as int + 1),
            decreases self.len() - i,
        {
            proof {
                assert(v[i as int] == self@[i as int].0 as int);
                assert(root.0 + v[i as int] <= u8::MAX);
            }
            r.push(Pitch::new(root.semitones() + self[i].semitones()));
            i = i + 1;
            proof {
                assert(pitch_ints(r@) =~= pitches_from_intervals(root.0 as int, v).take(
                    i as int + 1,
                ));
            }
        }
        proof {
            assert(pitch_ints(r@) =~= pitches_from_intervals(root.0 as int, v));
        }
        r
    }
}

} // verus!
