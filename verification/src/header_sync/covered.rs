//! The set of heights whose headers are already held, as disjoint intervals.

use crate::header_sync::ranges::RangeRequest;
use crate::types::{max_height, min_height, Height};
use vstd::prelude::*;

verus! {

/// One interval of covered heights, both ends included.
#[derive(Copy, Clone, Debug, PartialEq, Eq, Structural)]
pub struct CoveredRange {
    /// First covered height.
    pub start: Height,
    /// Last covered height.
    pub end: Height,
}

impl CoveredRange {
    /// The heights of the interval.
    pub open spec fn heights(self) -> Set<int> {
        Set::new(|h: int| self.start.0 <= h <= self.end.0)
    }
}

/// Intervals are non-empty, ascending, disjoint and not even adjacent.
pub open spec fn normal_intervals(intervals: Seq<CoveredRange>) -> bool {
    &&& forall|i: int|
        0 <= i < intervals.len() ==> (#[trigger] intervals[i]).start.0 <= intervals[i].end.0
    &&& forall|i: int, j: int|
        0 <= i < j < intervals.len() ==> (#[trigger] intervals[i]).end.0 + 1 < (
        #[trigger] intervals[j]).start.0
}

/// The heights that some interval holds.
pub open spec fn covered_heights(intervals: Seq<CoveredRange>) -> Set<int> {
    Set::new(
        |h: int|
            exists|i: int|
                0 <= i < intervals.len() && (#[trigger] intervals[i]).start.0 <= h
                    <= intervals[i].end.0,
    )
}

/// A non-empty run of heights is covered exactly when one interval holds it whole.
pub proof fn lemma_run_in_one_interval(intervals: Seq<CoveredRange>, start: int, end: int)
    requires
        normal_intervals(intervals),
        start <= end,
    ensures
        (forall|h: int| start <= h <= end ==> #[trigger] covered_heights(intervals).contains(h))
            <==> (exists|i: int|
            0 <= i < intervals.len() && (#[trigger] intervals[i]).start.0 <= start
                && intervals[i].end.0 >= end),
{
    let all = forall|h: int|
        start <= h <= end ==> #[trigger] covered_heights(intervals).contains(h);
    if all {
        assert(covered_heights(intervals).contains(start));
        let i = choose|i: int|
            0 <= i < intervals.len() && (#[trigger] intervals[i]).start.0 <= start
                <= intervals[i].end.0;
        if intervals[i].end.0 < end {
            let h = intervals[i].end.0 + 1;
            assert(covered_heights(intervals).contains(h));
            let j = choose|j: int|
                0 <= j < intervals.len() && (#[trigger] intervals[j]).start.0 <= h
                    <= intervals[j].end.0;
            assert(i < j || j < i || i == j);
        }
    }
    if exists|i: int|
        0 <= i < intervals.len() && (#[trigger] intervals[i]).start.0 <= start
            && intervals[i].end.0 >= end {
        let i = choose|i: int|
            0 <= i < intervals.len() && (#[trigger] intervals[i]).start.0 <= start
                && intervals[i].end.0 >= end;
        assert forall|h: int| start <= h <= end implies #[trigger] covered_heights(
            intervals,
        ).contains(h) by {
            assert(intervals[i].start.0 <= h <= intervals[i].end.0);
        }
    }
}

/// Two normal interval lists over the same heights are the same list.
pub proof fn lemma_normal_intervals_unique(a: Seq<CoveredRange>, b: Seq<CoveredRange>)
    requires
        normal_intervals(a),
        normal_intervals(b),
        covered_heights(a) == covered_heights(b),
    ensures
        a == b,
    decreases a.len(),
{
    if a.len() == 0 || b.len() == 0 {
        if a.len() > 0 {
            assert(a[0].start.0 <= a[0].start.0 <= a[0].end.0);
            assert(covered_heights(a).contains(a[0].start.0 as int));
            assert(covered_heights(b).contains(a[0].start.0 as int));
        }
        if b.len() > 0 {
            assert(b[0].start.0 <= b[0].start.0 <= b[0].end.0);
            assert(covered_heights(b).contains(b[0].start.0 as int));
            assert(covered_heights(a).contains(b[0].start.0 as int));
        }
        assert(a =~= b);
    } else {
        let x = a.last();
        let y = b.last();
        assert(a[a.len() - 1] == x && b[b.len() - 1] == y);
        lemma_last_run_within(a, b);
        lemma_last_run_within(b, a);
        assert(x == y);
        let rest_a = a.drop_last();
        let rest_b = b.drop_last();
        assert(normal_intervals(rest_a));
        assert(normal_intervals(rest_b));
        lemma_drop_last_heights(a);
        lemma_drop_last_heights(b);
        assert(covered_heights(rest_a) =~= covered_heights(rest_b));
        lemma_normal_intervals_unique(rest_a, rest_b);
        assert(a =~= rest_a.push(x));
        assert(b =~= rest_b.push(y));
    }
}

/// The last interval of `a` lies inside the last interval of `b` when both cover
/// the same heights.
proof fn lemma_last_run_within(a: Seq<CoveredRange>, b: Seq<CoveredRange>)
    requires
        normal_intervals(a),
        normal_intervals(b),
        covered_heights(a) == covered_heights(b),
        a.len() > 0,
        b.len() > 0,
    ensures
        b.last().start.0 <= a.last().start.0,
        a.last().end.0 <= b.last().end.0,
{
    let x = a[a.len() - 1];
    let y = b[b.len() - 1];
    assert forall|h: int| x.start.0 <= h <= x.end.0 implies #[trigger] covered_heights(b).contains(
        h,
    ) by {
        assert(covered_heights(a).contains(h));
    }
    lemma_run_in_one_interval(b, x.start.0 as int, x.end.0 as int);
    let i = choose|i: int|
        0 <= i < b.len() && (#[trigger] b[i]).start.0 <= x.start.0 && b[i].end.0 >= x.end.0;
    if i < b.len() - 1 {
        assert(b[i].end.0 + 1 < b[b.len() - 1].start.0);
        let h = y.start.0 as int;
        assert(y.start.0 <= h <= y.end.0);
        assert(covered_heights(b).contains(h));
        assert(covered_heights(a).contains(h));
        let k = choose|k: int| 0 <= k < a.len() && (#[trigger] a[k]).start.0 <= h <= a[k].end.0;
        assert(k == a.len() - 1 || k < a.len() - 1);
        assert(k < a.len() - 1 ==> a[k].end.0 + 1 < a[a.len() - 1].start.0);
    }
}

/// Dropping the last interval drops its heights and no others.
proof fn lemma_drop_last_heights(a: Seq<CoveredRange>)
    requires
        normal_intervals(a),
        a.len() > 0,
    ensures
        covered_heights(a.drop_last()) == covered_heights(a).difference(a.last().heights()),
{
    let rest = a.drop_last();
    assert forall|h: int| #[trigger] covered_heights(rest).contains(h) == covered_heights(
        a,
    ).difference(a.last().heights()).contains(h) by {
        if covered_heights(rest).contains(h) {
            let i = choose|i: int|
                0 <= i < rest.len() && (#[trigger] rest[i]).start.0 <= h <= rest[i].end.0;
            assert(a[i].start.0 <= h <= a[i].end.0);
            assert(a[i].end.0 + 1 < a[a.len() - 1].start.0);
        }
        if covered_heights(a).contains(h) && !a.last().heights().contains(h) {
            let i = choose|i: int|
                0 <= i < a.len() && (#[trigger] a[i]).start.0 <= h <= a[i].end.0;
            assert(rest[i].start.0 <= h <= rest[i].end.0);
        }
    }
    assert(covered_heights(rest) =~= covered_heights(a).difference(a.last().heights()));
}

/// Whether every height of `range` is covered.
pub fn is_covered(intervals: &Vec<CoveredRange>, range: RangeRequest) -> (covered: bool)
    requires
        normal_intervals(intervals@),
        range.wf(),
    ensures
        covered == range.heights().subset_of(covered_heights(intervals@)),
{
    let end = range.end_height();
    proof {
        lemma_run_in_one_interval(intervals@, range.start_height.0 as int, end.0 as int);
        assert(range.heights().subset_of(covered_heights(intervals@)) == (forall|h: int|
            range.start_height.0 <= h <= end.0 ==> #[trigger] covered_heights(
                intervals@,
            ).contains(h))) by {
            if range.heights().subset_of(covered_heights(intervals@)) {
                assert forall|h: int|
                    range.start_height.0 <= h <= end.0 implies #[trigger] covered_heights(
                    intervals@,
                ).contains(h) by {
                    assert(range.heights().contains(h));
                }
            }
        }
    }
    let mut i: usize = 0;
    while i < intervals.len()
        invariant
            i <= intervals.len(),
            end.0 == range.end(),
            forall|j: int|
                0 <= j < i ==> !((#[trigger] intervals@[j]).start.0 <= range.start_height.0
                    && intervals@[j].end.0 >= end.0),
            range.heights().subset_of(covered_heights(intervals@)) == (exists|j: int|
                0 <= j < intervals@.len() && (#[trigger] intervals@[j]).start.0
                    <= range.start_height.0 && intervals@[j].end.0 >= end.0),
        decreases intervals.len() - i,
    {
        if intervals[i].start.0 <= range.start_height.0 && intervals[i].end.0 >= end.0 {
            return true;
        }
        i = i + 1;
    }
    false
}

/// The heights of a run that has not been emitted yet.
spec fn pending_heights(inserted: bool, run: CoveredRange) -> Set<int> {
    if inserted {
        Set::empty()
    } else {
        run.heights()
    }
}

/// The intervals that also cover `interval`, merged back into normal form. An
/// inverted `interval` adds nothing.
pub fn with_interval(intervals: &Vec<CoveredRange>, interval: CoveredRange) -> (merged: Vec<
    CoveredRange,
>)
    requires
        normal_intervals(intervals@),
    ensures
        normal_intervals(merged@),
        covered_heights(merged@) == covered_heights(intervals@).union(interval.heights()),
        interval.end.0 < interval.start.0 ==> merged@ == intervals@,
{
    let mut merged: Vec<CoveredRange> = Vec::new();
    if interval.end.0 < interval.start.0 {
        let mut k: usize = 0;
        while k < intervals.len()
            invariant
                k <= intervals.len(),
                merged@ == intervals@.take(k as int),
            decreases intervals.len() - k,
        {
            merged.push(intervals[k]);
            k = k + 1;
            assert(merged@ =~= intervals@.take(k as int));
        }
        assert(merged@ =~= intervals@);
        assert(covered_heights(merged@) =~= covered_heights(intervals@).union(interval.heights()));
        return merged;
    }
    let mut grown: CoveredRange = interval;
    let mut inserted: bool = false;
    let mut i: usize = 0;
    assert(covered_heights(merged@).union(interval.heights()) =~= covered_heights(
        intervals@.take(0),
    ).union(interval.heights()));
    while i < intervals.len()
        invariant
            i <= intervals.len(),
            normal_intervals(intervals@),
            normal_intervals(merged@),
            grown.start.0 <= grown.end.0,
            // Everything emitted so far, together with a pending run, covers the
            // intervals read so far and the new one.
            covered_heights(merged@).union(pending_heights(inserted, grown)) == covered_heights(
                intervals@.take(i as int),
            ).union(interval.heights()),
            !inserted ==> forall|j: int|
                0 <= j < merged@.len() ==> (#[trigger] merged@[j]).end.0 + 1 < grown.start.0,
            forall|j: int, k: int|
                0 <= j < merged@.len() && i <= k < intervals@.len() ==> (
                #[trigger] merged@[j]).end.0 + 1 < (#[trigger] intervals@[k]).start.0,
            inserted ==> forall|k: int|
                i <= k < intervals@.len() ==> grown.end.0 + 1 < (
                #[trigger] intervals@[k]).start.0,
        decreases intervals.len() - i,
    {
        let covered = intervals[i];
        let ghost before = merged@;
        let ghost was_inserted = inserted;
        let ghost old_grown = grown;
        proof {
            lemma_take_heights(intervals@, i as int);
        }
        if covered.end.0.saturating_add(1) < grown.start.0 {
            merged.push(covered);
            proof {
                lemma_push_heights(before, covered);
            }
        } else if grown.end.0.saturating_add(1) < covered.start.0 {
            if !inserted {
                merged.push(grown);
                inserted = true;
                proof {
                    lemma_push_heights(before, grown);
                }
            }
            let ghost middle = merged@;
            merged.push(covered);
            proof {
                lemma_push_heights(middle, covered);
            }
        } else {
            grown.start = min_height(grown.start, covered.start);
            grown.end = max_height(grown.end, covered.end);
            assert(grown.heights() =~= old_grown.heights().union(covered.heights()));
        }
        i = i + 1;
        assert(covered_heights(merged@).union(pending_heights(inserted, grown)) =~= covered_heights(
            before,
        ).union(pending_heights(was_inserted, old_grown)).union(covered.heights()));
        assert(covered_heights(intervals@.take(i as int)).union(interval.heights())
            =~= covered_heights(intervals@.take(i - 1)).union(interval.heights()).union(
            covered.heights(),
        ));
    }
    let ghost before = merged@;
    if !inserted {
        merged.push(grown);
        proof {
            lemma_push_heights(before, grown);
        }
    }
    proof {
        assert(intervals@.take(i as int) =~= intervals@);
        assert(covered_heights(merged@) =~= covered_heights(intervals@).union(interval.heights()));
    }
    merged
}

/// Reading one more interval adds its heights.
proof fn lemma_take_heights(intervals: Seq<CoveredRange>, i: int)
    requires
        0 <= i < intervals.len(),
    ensures
        covered_heights(intervals.take(i + 1)) == covered_heights(intervals.take(i)).union(
            intervals[i].heights(),
        ),
{
    assert(intervals.take(i + 1) =~= intervals.take(i).push(intervals[i]));
    lemma_push_heights(intervals.take(i), intervals[i]);
}

/// Appending an interval adds its heights.
proof fn lemma_push_heights(intervals: Seq<CoveredRange>, interval: CoveredRange)
    ensures
        covered_heights(intervals.push(interval)) == covered_heights(intervals).union(
            interval.heights(),
        ),
{
    let next = intervals.push(interval);
    assert forall|h: int| #[trigger] covered_heights(next).contains(h) == covered_heights(
        intervals,
    ).union(interval.heights()).contains(h) by {
        if covered_heights(next).contains(h) {
            let i = choose|i: int|
                0 <= i < next.len() && (#[trigger] next[i]).start.0 <= h <= next[i].end.0;
            if i < intervals.len() {
                assert(intervals[i].start.0 <= h <= intervals[i].end.0);
            }
        }
        if covered_heights(intervals).contains(h) {
            let i = choose|i: int|
                0 <= i < intervals.len() && (#[trigger] intervals[i]).start.0 <= h
                    <= intervals[i].end.0;
            assert(next[i].start.0 <= h <= next[i].end.0);
        }
        if interval.heights().contains(h) {
            assert(next[intervals.len() as int].start.0 <= h <= next[intervals.len() as int].end.0);
        }
    }
    assert(covered_heights(next) =~= covered_heights(intervals).union(interval.heights()));
}

} // verus!
