//! The laws of the semitone-sequence algebra.
//!
//! Each proof function here states one law that the conversions in
//! [`crate::semitones`] obey for every sequence, and the executable
//! conversions inherit them through their `ensures` clauses.

use vstd::prelude::*;
use vstd::std_specs::ops::AddSpec;
use vstd::std_specs::ops::SubSpec;

use crate::interval::Interval;
use crate::interval::interval_ints;
use crate::pitch::Pitch;
use crate::pitch::pitch_ints;
use crate::semitones::intervals_from_pitches;
use crate::step::Step;
use crate::step::step_ints;
use crate::semitones::intervals_from_steps;
use crate::semitones::lemma_total_take_succ;
use crate::semitones::pitches_from_intervals;
use crate::semitones::pitches_from_steps;
use crate::semitones::steps_from_intervals;
use crate::semitones::steps_from_pitches;
use crate::semitones::total;

verus! {

/// The total of a prefix of the recovered steps is the interval the prefix
/// ends on: recovering steps from intervals inverts the running totals.
proof fn lemma_steps_from_intervals_take_total(v: Seq<int>, k: int)
    requires
        0 <= k <= v.len(),
    ensures
        total(steps_from_intervals(v).take(k)) == if k == 0 {
            0
        } else {
            v[k - 1]
        },
    decreases k,
{
    if k == 0 {
        assert(steps_from_intervals(v).take(0) =~= Seq::<int>::empty());
    } else {
        lemma_steps_from_intervals_take_total(v, k - 1);
        lemma_total_take_succ(steps_from_intervals(v), k - 1);
    }
}

/// The total of a prefix of the pitch-derived steps is the distance of the
/// pitch the prefix ends on from the first pitch.
proof fn lemma_steps_from_pitches_take_total(p: Seq<int>, k: int)
    requires
        1 <= p.len(),
        0 <= k <= p.len() - 1,
    ensures
        total(steps_from_pitches(p).take(k)) == p[k] - p[0],
    decreases k,
{
    if k == 0 {
        assert(steps_from_pitches(p).take(0) =~= Seq::<int>::empty());
    } else {
        lemma_steps_from_pitches_take_total(p, k - 1);
        lemma_total_take_succ(steps_from_pitches(p), k - 1);
    }
}

/// Turning steps into intervals and the intervals back into steps
/// reproduces the steps exactly.
pub proof fn lemma_steps_intervals_round_trip(s: Seq<int>)
    ensures
        steps_from_intervals(intervals_from_steps(s)) == s,
{
    let v = intervals_from_steps(s);
    assert forall|i: int| 0 <= i < s.len() implies steps_from_intervals(v)[i] == s[i] by {
        assert(s.take(0) =~= Seq::<int>::empty());
        lemma_total_take_succ(s, i);
        if i > 0 {
            lemma_total_take_succ(s, i - 1);
        }
    }
    assert(steps_from_intervals(v) =~= s);
}

/// Turning intervals into steps and the steps back into intervals
/// reproduces the intervals exactly.
pub proof fn lemma_intervals_steps_round_trip(v: Seq<int>)
    ensures
        intervals_from_steps(steps_from_intervals(v)) == v,
{
    let d = steps_from_intervals(v);
    assert forall|i: int| 0 <= i < v.len() implies intervals_from_steps(d)[i] == v[i] by {
        lemma_steps_from_intervals_take_total(v, i + 1);
    }
    assert(intervals_from_steps(d) =~= v);
}

/// Reducing pitches to root-relative intervals and rebuilding from the
/// first pitch reproduces the pitches exactly.
pub proof fn lemma_pitches_intervals_round_trip(p: Seq<int>)
    requires
        1 <= p.len(),
    ensures
        pitches_from_intervals(p[0], intervals_from_pitches(p)) == p,
{
    assert(pitches_from_intervals(p[0], intervals_from_pitches(p)) =~= p);
}

/// Reducing pitches to adjacent steps and rebuilding from the first pitch
/// reproduces the pitches exactly.
pub proof fn lemma_pitches_steps_round_trip(p: Seq<int>)
    requires
        1 <= p.len(),
    ensures
        pitches_from_steps(p[0], steps_from_pitches(p)) == p,
{
    let s = steps_from_pitches(p);
    assert forall|i: int| 0 <= i < p.len() implies pitches_from_steps(p[0], s)[i] == p[i] by {
        lemma_steps_from_pitches_take_total(p, i);
    }
    assert(pitches_from_steps(p[0], s) =~= p);
}

/// Building pitches from intervals and reducing them again yields the
/// intervals one started with, whatever the root.
pub proof fn lemma_intervals_pitches_round_trip(root: int, v: Seq<int>)
    ensures
        intervals_from_pitches(pitches_from_intervals(root, v)) == v,
{
    assert(intervals_from_pitches(pitches_from_intervals(root, v)) =~= v);
}

/// Building pitches from steps and reducing them again yields the steps
/// one started with, whatever the root.
pub proof fn lemma_steps_pitches_round_trip(root: int, s: Seq<int>)
    ensures
        steps_from_pitches(pitches_from_steps(root, s)) == s,
{
    let q = pitches_from_steps(root, s);
    assert forall|i: int| 0 <= i < s.len() implies steps_from_pitches(q)[i] == s[i] by {
        lemma_total_take_succ(s, i);
    }
    assert(steps_from_pitches(q) =~= s);
}

/// The lengths the conversions produce: steps and intervals keep their
/// length under each other; `n` pitches reduce to `n - 1` steps or
/// intervals (none when no pitch is given); and steps or intervals build
/// one pitch more than their own number.
pub proof fn lemma_conversion_lengths(s: Seq<int>, p: Seq<int>, root: int)
    ensures
        intervals_from_steps(s).len() == s.len(),
        steps_from_intervals(s).len() == s.len(),
        pitches_from_intervals(root, s).len() == s.len() + 1,
        pitches_from_steps(root, s).len() == s.len() + 1,
        p.len() == 0 ==> intervals_from_pitches(p).len() == 0,
        p.len() == 0 ==> steps_from_pitches(p).len() == 0,
        p.len() >= 1 ==> intervals_from_pitches(p).len() == p.len() - 1,
        p.len() >= 1 ==> steps_from_pitches(p).len() == p.len() - 1,
{
}

/// The step pattern and the root-relative intervals of a line built from a
/// step sequence do not depend on the root: two roots give the same steps
/// and the same intervals, and pitches that differ by the constant offset
/// of the roots.
pub proof fn lemma_root_independence(s: Seq<int>, r1: int, r2: int)
    ensures
        steps_from_pitches(pitches_from_steps(r1, s)) == steps_from_pitches(
            pitches_from_steps(r2, s),
        ),
        intervals_from_pitches(pitches_from_steps(r1, s)) == intervals_from_pitches(
            pitches_from_steps(r2, s),
        ),
        forall|i: int| 0 <= i < s.len() + 1 ==> #[trigger] pitches_from_steps(r2, s)[i]
            == pitches_from_steps(r1, s)[i] + (r2 - r1),
{
    lemma_steps_pitches_round_trip(r1, s);
    lemma_steps_pitches_round_trip(r2, s);
    assert(intervals_from_pitches(pitches_from_steps(r1, s)) =~= intervals_from_pitches(
        pitches_from_steps(r2, s),
    ));
}

/// Raising a pitch by a step and measuring the raised pitch against the
/// original recovers the step: `(p + s) - p == s`.
pub proof fn lemma_pitch_add_sub_identity(p: Pitch, s: Step)
    requires
        p.0 + s.0 <= u8::MAX,
    ensures
        p.add_spec(s).sub_spec(p) == s,
{
}

/// Widening an interval by a step and narrowing it by the same step
/// recovers the interval: `(i + s) - s == i`.
pub proof fn lemma_interval_add_sub_identity(i: Interval, s: Step)
    requires
        i.0 + s.0 <= u8::MAX,
    ensures
        i.add_spec(s).sub_spec(s) == i,
{
}

/// Step sequences with the same semitone counts are the same sequence,
/// so a round trip that reproduces the counts reproduces the steps
/// themselves.
pub proof fn lemma_step_ints_injective(a: Seq<Step>, b: Seq<Step>)
    requires
        step_ints(a) == step_ints(b),
    ensures
        a == b,
{
    assert(step_ints(a).len() == a.len());
    assert(step_ints(b).len() == b.len());
    assert forall|i: int| 0 <= i < a.len() implies a[i] == b[i] by {
        assert(step_ints(a)[i] == a[i].0 as int);
        assert(step_ints(b)[i] == b[i].0 as int);
        assert(a[i].0 == b[i].0);
    }
    assert(a =~= b);
}

/// Interval sequences with the same semitone counts are the same
/// sequence, so a round trip that reproduces the counts reproduces the
/// intervals themselves.
pub proof fn lemma_interval_ints_injective(a: Seq<Interval>, b: Seq<Interval>)
    requires
        interval_ints(a) == interval_ints(b),
    ensures
        a == b,
{
    assert(interval_ints(a).len() == a.len());
    assert(interval_ints(b).len() == b.len());
    assert forall|i: int| 0 <= i < a.len() implies a[i] == b[i] by {
        assert(interval_ints(a)[i] == a[i].0 as int);
        assert(interval_ints(b)[i] == b[i].0 as int);
        assert(a[i].0 == b[i].0);
    }
    assert(a =~= b);
}

/// Pitch sequences with the same note numbers are the same sequence, so
/// a round trip that reproduces the numbers reproduces the pitches
/// themselves.
pub proof fn lemma_pitch_ints_injective(a: Seq<Pitch>, b: Seq<Pitch>)
    requires
        pitch_ints(a) == pitch_ints(b),
    ensures
        a == b,
{
    assert(pitch_ints(a).len() == a.len());
    assert(pitch_ints(b).len() == b.len());
    assert forall|i: int| 0 <= i < a.len() implies a[i] == b[i] by {
        assert(pitch_ints(a)[i] == a[i].0 as int);
        assert(pitch_ints(b)[i] == b[i].0 as int);
        assert(a[i].0 == b[i].0);
    }
    assert(a =~= b);
}

} // verus!
