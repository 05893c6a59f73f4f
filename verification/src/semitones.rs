//! The algebra of semitone-count sequences.
//!
//! Every quantity in this library is an integer count of semitones, and a
//! musical line has three interchangeable descriptions:
//!
//! - *steps*: the distance between each pair of adjacent degrees;
//! - *intervals*: the cumulative distance of each later degree from the first;
//! - *pitches*: the absolute position of every degree.
//!
//! The spec functions here state each conversion over mathematical integer
//! sequences, free of any machine range; the executable conversions elsewhere
//! in the crate are proved to return exactly these sequences.

use vstd::prelude::*;

verus! {

/// The sum of all counts in the sequence.
pub open spec fn total(s: Seq<int>) -> int
    decreases s.len(),
{
    if s.len() == 0 {
        0
    } else {
        total(s.drop_last()) + s.last()
    }
}

/// Every count in the sequence is nonnegative.
pub open spec fn nonneg(s: Seq<int>) -> bool {
    forall|i: int| 0 <= i < s.len() ==> 0 <= s[i]
}

/// The counts never decrease from one position to the next.
pub open spec fn ascending(s: Seq<int>) -> bool {
    forall|i: int| 0 < i < s.len() ==> s[i - 1] <= #[trigger] s[i]
}

/// No count lies below the first one.
pub open spec fn rooted(p: Seq<int>) -> bool {
    forall|i: int| 0 <= i < p.len() ==> p[0] <= #[trigger] p[i]
}

/// Intervals from steps: position `i` holds the sum of steps `0 ..= i`,
/// so the intervals are the running totals of the steps.
pub open spec fn intervals_from_steps(s: Seq<int>) -> Seq<int> {
    Seq::new(s.len(), |i: int| total(s.take(i + 1)))
}

/// Steps from intervals: the first interval, then the difference between
/// each interval and the one before it.
pub open spec fn steps_from_intervals(v: Seq<int>) -> Seq<int> {
    Seq::new(v.len(), |i: int| if i == 0 { v[0] } else { v[i] - v[i - 1] })
}

/// Intervals from pitches: the distance of each later pitch from the first.
/// An empty or single-pitch sequence yields no intervals.
pub open spec fn intervals_from_pitches(p: Seq<int>) -> Seq<int> {
    if p.len() == 0 {
        Seq::empty()
    } else {
        Seq::new((p.len() - 1) as nat, |i: int| p[i + 1] - p[0])
    }
}

/// Steps from pitches: the distance between each pair of adjacent pitches.
/// An empty or single-pitch sequence yields no steps.
pub open spec fn steps_from_pitches(p: Seq<int>) -> Seq<int> {
    if p.len() == 0 {
        Seq::empty()
    } else {
        Seq::new((p.len() - 1) as nat, |i: int| p[i + 1] - p[i])
    }
}

/// Pitches from intervals: the root, then the root displaced by each
/// interval in turn (intervals are already cumulative from the root).
pub open spec fn pitches_from_intervals(root: int, v: Seq<int>) -> Seq<int> {
    Seq::new(v.len() + 1, |i: int| if i == 0 { root } else { root + v[i - 1] })
}

/// Pitches from steps: the root, then each step applied on top of the
/// pitch before it, so position `i` is the root plus the first `i` steps.
pub open spec fn pitches_from_steps(root: int, s: Seq<int>) -> Seq<int> {
    Seq::new(s.len() + 1, |i: int| root + total(s.take(i)))
}

/// Extending a prefix by one count adds that count to its total.
pub proof fn lemma_total_take_succ(s: Seq<int>, i: int)
    requires
        0 <= i < s.len(),
    ensures
        total(s.take(i + 1)) == total(s.take(i)) + s[i],
{
    assert(s.take(i + 1).drop_last() =~= s.take(i));
    assert(s.take(i + 1).last() == s[i]);
}

/// With nonnegative counts, the total of a prefix never exceeds the total
/// of the whole sequence.
pub proof fn lemma_total_take_bound(s: Seq<int>, i: int)
    requires
        nonneg(s),
        0 <= i <= s.len(),
    ensures
        total(s.take(i)) <= total(s),
    decreases s.len() - i,
{
    if i == s.len() {
        assert(s.take(i) =~= s);
    } else {
        lemma_total_take_succ(s, i);
        lemma_total_take_bound(s, i + 1);
    }
}

} // verus!
