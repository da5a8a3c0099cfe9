//! What holds of the range queue across calls.

use crate::header_sync::assignments;
use crate::header_sync::ranges::{RangePriority, RangeRequest};
use crate::header_sync::scheduler::{
    self, HeaderRequestLimits, HeaderWork, PeerPullCaps, ReturnReason, SchedulerView,
    HEADER_SYNC_FANOUT,
};
use crate::types::Height;
use vstd::prelude::*;

verus! {

/// Every range is held by at most the fanout number of peers.
pub open spec fn fanout_respected(state: SchedulerView) -> bool {
    &&& state.assigned.dom().finite()
    &&& forall|range: RangeRequest|
        (#[trigger] assignments::holders(state.assigned, range)).finite() && assignments::holders(
            state.assigned,
            range,
        ).len() <= HEADER_SYNC_FANOUT
}

/// A position that `first_match` reports is the first that passes.
pub proof fn lemma_first_match_is_first(
    queue: Seq<RangeRequest>,
    pass: spec_fn(RangeRequest) -> bool,
)
    ensures
        scheduler::first_match(queue, pass) matches Some(i) ==> scheduler::is_first(queue, pass, i),
        scheduler::first_match(queue, pass) is None ==> forall|i: int|
            0 <= i < queue.len() ==> !pass(#[trigger] queue[i]),
{
    if scheduler::first_match(queue, pass) is None {
        assert forall|i: int| 0 <= i < queue.len() implies !pass(#[trigger] queue[i]) by {
            lemma_some_first(queue, pass, i);
        }
    }
}

/// Where something passes there is a first position that does.
proof fn lemma_some_first(queue: Seq<RangeRequest>, pass: spec_fn(RangeRequest) -> bool, i: int)
    requires
        0 <= i < queue.len(),
    ensures
        pass(queue[i]) ==> exists|k: int| scheduler::is_first(queue, pass, k),
    decreases i,
{
    if pass(queue[i]) {
        if forall|j: int| 0 <= j < i ==> !pass(#[trigger] queue[j]) {
            assert(scheduler::is_first(queue, pass, i));
        } else {
            let j = choose|j: int| 0 <= j < i && pass(#[trigger] queue[j]);
            lemma_some_first(queue, pass, j);
        }
    }
}

/// Forward work goes first: while some forward range may be handed to the peer, the
/// next range is a forward one; otherwise nothing assignable is passed over.
pub proof fn law_forward_work_first(state: SchedulerView, peer: Seq<u8>, tip: Height)
    ensures
        (exists|i: int|
            0 <= i < state.forward.len() && state.assignable(
                peer,
                tip,
                #[trigger] state.forward[i],
            )) ==> state.next_for_peer(peer, tip).0 is Some && state.forward.contains(
            state.next_for_peer(peer, tip).0->0,
        ),
        state.next_for_peer(peer, tip).0 is None ==> {
            &&& forall|i: int|
                0 <= i < state.forward.len() ==> !state.assignable(
                    peer,
                    tip,
                    #[trigger] state.forward[i],
                )
            &&& forall|i: int|
                0 <= i < state.backward.len() ==> !state.assignable(
                    peer,
                    tip,
                    #[trigger] state.backward[i],
                )
        },
{
    let pass = |r: RangeRequest| state.assignable(peer, tip, r);
    assert(state.queue(RangePriority::Forward) == state.forward);
    assert(state.queue(RangePriority::Backfill) == state.backward);
    lemma_first_match_is_first(state.forward, pass);
    lemma_first_match_is_first(state.backward, pass);
    if exists|i: int|
        0 <= i < state.forward.len() && state.assignable(peer, tip, #[trigger] state.forward[i]) {
        let i = choose|i: int|
            0 <= i < state.forward.len() && state.assignable(
                peer,
                tip,
                #[trigger] state.forward[i],
            );
        assert(pass(state.forward[i]));
    }
}

/// The next range was queued, lies within the advertised tip, was not yet held by the
/// peer, and had a free place.
proof fn lemma_next_is_assignable(state: SchedulerView, peer: Seq<u8>, tip: Height)
    ensures
        state.next_for_peer(peer, tip).0 matches Some(range) ==> state.assignable(peer, tip, range)
            && (state.forward.contains(range) || state.backward.contains(range)),
{
    let pass = |r: RangeRequest| state.assignable(peer, tip, r);
    assert(state.queue(RangePriority::Forward) == state.forward);
    assert(state.queue(RangePriority::Backfill) == state.backward);
    lemma_first_match_is_first(state.forward, pass);
    lemma_first_match_is_first(state.backward, pass);
}

/// What a pull hands out stays within the peer's advertised tip and within every cap
/// on the count, and is recorded under the session that pulled it.
pub proof fn law_work_within_caps(
    state: SchedulerView,
    peer: Seq<u8>,
    generation: u64,
    caps: PeerPullCaps,
    limits: HeaderRequestLimits,
)
    ensures
        state.taken(peer, generation, caps, limits).0 matches Some(work) ==> {
            &&& work.range.end() <= caps.advertised_tip.0
            &&& work.count == work.range.count
            &&& work.count <= caps.max_headers_per_response
            &&& work.count <= limits.hard_max
            &&& work.count <= limits.frame_max
            &&& state.taken(peer, generation, caps, limits).1.assigned.contains_key(
                (work.range, peer),
            )
            &&& state.taken(peer, generation, caps, limits).1.assigned[(work.range, peer)]
                == generation
        },
{
    lemma_next_is_assignable(state, peer, caps.advertised_tip);
}

/// A pull never hands a peer a range that the peer already holds, unless the range was
/// cut down to another one that it holds.
pub proof fn law_no_repeat_to_holder(
    state: SchedulerView,
    peer: Seq<u8>,
    generation: u64,
    caps: PeerPullCaps,
    limits: HeaderRequestLimits,
)
    requires
        state.next_for_peer(peer, caps.advertised_tip).0 matches Some(original)
            ==> scheduler::clamped_count(original.count, caps.max_headers_per_response, limits)
            == original.count,
    ensures
        state.taken(peer, generation, caps, limits).0 matches Some(work)
            ==> !state.assigned.contains_key((work.range, peer)),
{
    lemma_next_is_assignable(state, peer, caps.advertised_tip);
    if let Some(original) = state.next_for_peer(peer, caps.advertised_tip).0 {
        assert(original.with_count(original.count) == original);
    }
}

/// A finalized range is handed out whole: what a pull hands out of a finalized range
/// is a range that was queued.
pub proof fn law_finalized_is_never_shrunk(
    state: SchedulerView,
    peer: Seq<u8>,
    generation: u64,
    caps: PeerPullCaps,
    limits: HeaderRequestLimits,
)
    ensures
        state.taken(peer, generation, caps, limits).0 matches Some(work) ==> work.range.finalized
            ==> (state.forward.contains(work.range) || state.backward.contains(work.range)),
{
    lemma_next_is_assignable(state, peer, caps.advertised_tip);
    if let Some(original) = state.next_for_peer(peer, caps.advertised_tip).0 {
        let count = scheduler::clamped_count(
            original.count,
            caps.max_headers_per_response,
            limits,
        );
        assert(count <= original.count);
        assert(original.with_count(original.count) == original);
    }
}

/// A pull keeps every range within the fanout, except where a cut-down range meets
/// one that is held already.
pub proof fn law_fanout_is_respected(
    state: SchedulerView,
    peer: Seq<u8>,
    generation: u64,
    caps: PeerPullCaps,
    limits: HeaderRequestLimits,
)
    requires
        fanout_respected(state),
        state.taken(peer, generation, caps, limits).0 matches Some(work)
            ==> state.next_for_peer(peer, caps.advertised_tip).0 == Some(work.range)
            || !assignments::is_held(state.assigned, work.range),
    ensures
        fanout_respected(state.taken(peer, generation, caps, limits).1),
{
    lemma_next_is_assignable(state, peer, caps.advertised_tip);
    let (next, popped) = state.next_for_peer(peer, caps.advertised_tip);
    let after = state.taken(peer, generation, caps, limits).1;
    assert(popped.assigned == state.assigned);
    if let Some(original) = next {
        let count = scheduler::clamped_count(original.count, caps.max_headers_per_response, limits);
        let range = original.with_count(count);
        if !(original.finalized && count < original.count) {
            let moved = popped.narrowed(original, range).assigned;
            assert(after.assigned == moved.insert((range, peer), generation));
            if range == original {
                assert(moved == state.assigned);
            } else {
                let keys = state.assigned.dom();
                let image = keys.map(
                    |key: (RangeRequest, Seq<u8>)| if key.0 == original { (range, key.1) } else {
                        key
                    },
                );
                keys.lemma_map_finite(
                    |key: (RangeRequest, Seq<u8>)| if key.0 == original { (range, key.1) } else {
                        key
                    },
                );
                assert(moved.dom().subset_of(image)) by {
                    assert forall|key: (RangeRequest, Seq<u8>)| #[trigger]
                        moved.dom().contains(key) implies image.contains(key) by {
                        if state.assigned.contains_key(key) {
                            assert(keys.contains(key));
                        } else {
                            assert(keys.contains((original, key.1)));
                        }
                    }
                }
                vstd::set_lib::lemma_set_subset_finite(image, moved.dom());
                assert(assignments::holders(moved, range) =~= assignments::holders(
                    state.assigned,
                    original,
                )) by {
                    assert forall|p: Seq<u8>| assignments::holders(moved, range).contains(p)
                        == assignments::holders(state.assigned, original).contains(p) by {
                        if state.assigned.contains_key((range, p)) {
                            assert(assignments::is_held(state.assigned, range));
                        }
                    }
                }
            }
            assert forall|r: RangeRequest|
                (#[trigger] assignments::holders(after.assigned, r)).finite()
                    && assignments::holders(after.assigned, r).len() <= HEADER_SYNC_FANOUT by {
                if r == range {
                    assert(assignments::holders(after.assigned, r) =~= assignments::holders(
                        moved,
                        r,
                    ).insert(peer));
                    assert(assignments::holders(state.assigned, original).finite());
                } else if r == original {
                    assert(assignments::holders(after.assigned, r) =~= Set::empty());
                } else {
                    assert(assignments::holders(after.assigned, r) =~= assignments::holders(
                        state.assigned,
                        r,
                    ));
                }
            }
        }
    }
}

/// A returned range is never stranded: it is covered, first in its queue, or held by
/// another session of the peer.
pub proof fn law_return_never_strands(
    state: SchedulerView,
    peer: Seq<u8>,
    generation: u64,
    range: RangeRequest,
    reason: ReturnReason,
)
    ensures
        ({
            let after = state.returned(peer, generation, range, reason);
            after.is_covered(range) || after.held_by_other(peer, generation, range) || (after.queue(
                range.priority,
            ).len() > 0 && after.queue(range.priority)[0] == range)
        }),
{
}

/// A return by a session that lost the range to another session of the peer, such as a late
/// teardown of an old session, is ignored: the whole state stays as it is. A timeout
/// disturbs no assignment, and every other return releases the session's own and no other.
pub proof fn law_return_is_generation_scoped(
    state: SchedulerView,
    peer: Seq<u8>,
    generation: u64,
    range: RangeRequest,
    reason: ReturnReason,
)
    ensures
        state.held_by_other(peer, generation, range) ==> state.returned(
            peer,
            generation,
            range,
            reason,
        ) == state,
        reason == ReturnReason::Timeout ==> state.returned(
            peer,
            generation,
            range,
            reason,
        ).assigned == state.assigned,
        reason != ReturnReason::Timeout && !state.held_by_other(peer, generation, range)
            ==> state.returned(peer, generation, range, reason).assigned == state.assigned.remove(
            (range, peer),
        ),
{
}

/// Giving work back undoes the assignment that taking it made, where the range was
/// taken whole.
pub proof fn law_return_undoes_take(
    state: SchedulerView,
    peer: Seq<u8>,
    generation: u64,
    caps: PeerPullCaps,
    limits: HeaderRequestLimits,
    reason: ReturnReason,
)
    requires
        reason != ReturnReason::Timeout,
        state.taken(peer, generation, caps, limits).0 matches Some(work)
            ==> state.next_for_peer(peer, caps.advertised_tip).0 == Some(work.range),
    ensures
        state.taken(peer, generation, caps, limits).0 matches Some(work) ==> state.taken(
            peer,
            generation,
            caps,
            limits,
        ).1.returned(peer, generation, work.range, reason).assigned == state.assigned,
{
    lemma_next_is_assignable(state, peer, caps.advertised_tip);
    if let Some(work) = state.taken(peer, generation, caps, limits).0 {
        let after = state.taken(peer, generation, caps, limits).1;
        assert(after.assigned == state.assigned.insert((work.range, peer), generation));
        assert(after.assigned.remove((work.range, peer)) =~= state.assigned);
    }
}

/// Once heights are covered, no work that lies within covered heights is queued or
/// assigned, and offering or retrying such work changes nothing.
pub proof fn law_covered_work_is_gone(
    state: SchedulerView,
    start: Height,
    end: Height,
    range: RangeRequest,
    priority: RangePriority,
)
    ensures
        ({
            let after = state.range_covered(start, end);
            &&& forall|h: int| start.0 <= h <= end.0 ==> after.covered.contains(h)
            &&& state.covered.subset_of(after.covered)
            &&& forall|i: int|
                0 <= i < after.forward.len() ==> !after.is_covered(#[trigger] after.forward[i])
            &&& forall|i: int|
                0 <= i < after.backward.len() ==> !after.is_covered(#[trigger] after.backward[i])
            &&& forall|key: (RangeRequest, Seq<u8>)| #[trigger]
                after.assigned.contains_key(key) ==> !after.is_covered(key.0)
            &&& after.is_covered(range) ==> after.ensured(range, priority) == after
                && after.retried(range) == after
        }),
{
    let heights = crate::header_sync::covered::CoveredRange { start, end }.heights();
    let marked = SchedulerView { covered: state.covered.union(heights), ..state };
    let after = state.range_covered(start, end);
    let keep = scheduler::not_within(marked.covered);
    lemma_filtered_pass(state.forward, keep);
    lemma_filtered_pass(state.backward, keep);
    assert(after.forward == state.forward.filter(keep));
    assert(after.backward == state.backward.filter(keep));
}

/// Work that is not wholly covered survives: covering heights drops only work that
/// lies within covered heights.
pub proof fn law_uncovered_work_survives(
    state: SchedulerView,
    start: Height,
    end: Height,
    range: RangeRequest,
    peer: Seq<u8>,
)
    ensures
        ({
            let after = state.range_covered(start, end);
            !after.is_covered(range) ==> {
                &&& state.forward.contains(range) ==> after.forward.contains(range)
                &&& state.backward.contains(range) ==> after.backward.contains(range)
                &&& state.assigned.contains_key((range, peer)) ==> after.assigned.contains_key(
                    (range, peer),
                ) && after.assigned[(range, peer)] == state.assigned[(range, peer)]
            }
        }),
{
    let heights = crate::header_sync::covered::CoveredRange { start, end }.heights();
    let marked = SchedulerView { covered: state.covered.union(heights), ..state };
    let keep = scheduler::not_within(marked.covered);
    if !state.range_covered(start, end).is_covered(range) {
        assert(keep(range));
        lemma_filter_keeps(state.forward, keep, range);
        lemma_filter_keeps(state.backward, keep, range);
    }
}

/// After a reset no forward work ends above the target, work of the other queue and
/// the covered heights are untouched, and forward work within the target survives.
pub proof fn law_reset_drops_forward_past_target(
    state: SchedulerView,
    height: Height,
    range: RangeRequest,
)
    ensures
        ({
            let after = state.reset_above(height);
            &&& after.backward == state.backward
            &&& after.covered == state.covered
            &&& forall|i: int|
                0 <= i < after.forward.len() ==> (#[trigger] after.forward[i]).end() <= height.0
            &&& forall|key: (RangeRequest, Seq<u8>)| #[trigger]
                after.assigned.contains_key(key) ==> key.0.priority != RangePriority::Forward
                    || key.0.end() <= height.0
            &&& range.end() <= height.0 && state.forward.contains(range)
                ==> after.forward.contains(range)
        }),
{
    lemma_filtered_pass(state.forward, scheduler::ends_within(height));
    if range.end() <= height.0 {
        lemma_filter_keeps(state.forward, scheduler::ends_within(height), range);
    }
}

/// Offering the same work twice is the same as offering it once.
pub proof fn law_ensure_is_idempotent(
    state: SchedulerView,
    range: RangeRequest,
    priority: RangePriority,
)
    ensures
        state.ensured(range, priority).ensured(range, priority) == state.ensured(range, priority),
{
    let after = state.ensured(range, priority);
    if !state.is_covered(range) && !state.is_known(range, priority) {
        let queue = after.queue(priority);
        assert(queue == state.queue(priority).push(range));
        assert(queue[queue.len() - 1] == range);
        assert(queue.contains(range));
    }
}

/// What a filter keeps passes it.
proof fn lemma_filtered_pass(queue: Seq<RangeRequest>, keep: spec_fn(RangeRequest) -> bool)
    ensures
        forall|i: int|
            0 <= i < queue.filter(keep).len() ==> keep(#[trigger] queue.filter(keep)[i]),
    decreases queue.len(),
{
    reveal(Seq::filter);
    if queue.len() > 0 {
        lemma_filtered_pass(queue.drop_last(), keep);
    }
}

/// A filter keeps every member that passes it.
proof fn lemma_filter_keeps(
    queue: Seq<RangeRequest>,
    keep: spec_fn(RangeRequest) -> bool,
    range: RangeRequest,
)
    requires
        keep(range),
    ensures
        queue.contains(range) ==> queue.filter(keep).contains(range),
{
    if queue.contains(range) {
        let i = choose|i: int| 0 <= i < queue.len() && queue[i] == range;
        queue.lemma_filter_contains(keep, i);
    }
}

} // verus!
