//! What a pull hands to a peer, and what it leaves behind.

use crate::header_sync::ranges::{RangePriority, RangeRequest};
use crate::header_sync::scheduler::{
    self, HeaderRequestLimits, HeaderWork, PeerPullCaps, SchedulerView,
};
use crate::header_sync::scheduler_laws;
use crate::types::Height;
use vstd::prelude::*;

verus! {

/// Whether `part` is a prefix of `whole`: it starts at the same height, links to the same
/// block and is of the same kind, and at most its count is smaller.
pub open spec fn is_prefix_of(part: RangeRequest, whole: RangeRequest) -> bool {
    &&& part.start_height == whole.start_height
    &&& part.link_hash == whole.link_hash
    &&& part.finalized == whole.finalized
    &&& part.want_tree_aux_roots == whole.want_tree_aux_roots
    &&& part.priority == whole.priority
    &&& part.count <= whole.count
}

/// Whether a queued range is there for a peer with this tip: the peer has all its headers
/// and does not hold it, and fewer than three peers do.
pub open spec fn is_open_to(
    state: SchedulerView,
    peer: Seq<u8>,
    tip: Height,
    range: RangeRequest,
) -> bool {
    &&& range.start_height.0 + range.count - 1 <= tip.0
    &&& !state.assigned.contains_key((range, peer))
    &&& Set::new(|p: Seq<u8>| state.assigned.contains_key((range, p))).len() < 3
}

/// Whether a range has more headers than one request to a peer may ask for.
pub open spec fn exceeds_a_cap(
    range: RangeRequest,
    caps: PeerPullCaps,
    limits: HeaderRequestLimits,
) -> bool {
    range.count > caps.max_headers_per_response || range.count > limits.hard_max || range.count
        > limits.frame_max
}

/// Whether `count` is the most headers of a range that one request to a peer may ask for.
pub open spec fn is_most(
    count: u32,
    range: RangeRequest,
    caps: PeerPullCaps,
    limits: HeaderRequestLimits,
) -> bool {
    &&& count <= range.count
    &&& count <= caps.max_headers_per_response
    &&& count <= limits.hard_max
    &&& count <= limits.frame_max
    &&& count == range.count || count == caps.max_headers_per_response || count == limits.hard_max
        || count == limits.frame_max
}

/// Whether every queued range is in the queue of its priority.
pub open spec fn queues_are_sorted(state: SchedulerView) -> bool {
    &&& forall|i: int|
        0 <= i < state.forward.len() ==> (#[trigger] state.forward[i]).priority
            == RangePriority::Forward
    &&& forall|i: int|
        0 <= i < state.backward.len() ==> (#[trigger] state.backward[i]).priority
            == RangePriority::Backfill
}

/// A range is assignable to a peer exactly where it is open to it.
proof fn lemma_open_is_assignable(
    state: SchedulerView,
    peer: Seq<u8>,
    tip: Height,
    range: RangeRequest,
)
    ensures
        is_open_to(state, peer, tip, range) == state.assignable(peer, tip, range),
{
    assert(Set::new(|p: Seq<u8>| state.assigned.contains_key((range, p)))
        =~= crate::header_sync::assignments::holders(state.assigned, range));
}

/// The first open range of a queue is its first match.
proof fn lemma_first_open(state: SchedulerView, peer: Seq<u8>, tip: Height, queue: Seq<RangeRequest>)
    ensures
        ({
            let pass = |r: RangeRequest| state.assignable(peer, tip, r);
            match scheduler::first_match(queue, pass) {
                Some(i) => 0 <= i < queue.len() && is_open_to(state, peer, tip, queue[i])
                    && forall|j: int|
                    0 <= j < i ==> !is_open_to(state, peer, tip, #[trigger] queue[j]),
                None => forall|j: int|
                    0 <= j < queue.len() ==> !is_open_to(state, peer, tip, #[trigger] queue[j]),
            }
        }),
{
    let pass = |r: RangeRequest| state.assignable(peer, tip, r);
    scheduler_laws::lemma_first_match_is_first(queue, pass);
    assert forall|j: int| 0 <= j < queue.len() implies is_open_to(
        state,
        peer,
        tip,
        #[trigger] queue[j],
    ) == pass(queue[j]) by {
        lemma_open_is_assignable(state, peer, tip, queue[j]);
    }
}

/// The oldest open forward range is handed out first: the work is its longest prefix that
/// the caps allow. A finalized range that exceeds a cap is not handed out at all.
pub proof fn law_oldest_open_forward_range_is_taken(
    state: SchedulerView,
    peer: Seq<u8>,
    generation: u64,
    caps: PeerPullCaps,
    limits: HeaderRequestLimits,
    i: int,
)
    requires
        0 <= i < state.forward.len(),
        is_open_to(state, peer, caps.advertised_tip, state.forward[i]),
        forall|j: int|
            0 <= j < i ==> !is_open_to(
                state,
                peer,
                caps.advertised_tip,
                #[trigger] state.forward[j],
            ),
    ensures
        ({
            let whole = state.forward[i];
            match state.taken(peer, generation, caps, limits).0 {
                Some(work) => {
                    &&& is_prefix_of(work.range, whole)
                    &&& work.count == work.range.count
                    &&& is_most(work.count, whole, caps, limits)
                    &&& whole.finalized ==> work.range == whole
                },
                None => whole.finalized && exceeds_a_cap(whole, caps, limits),
            }
        }),
{
    assert(state.queue(RangePriority::Forward) == state.forward);
    lemma_first_open(state, peer, caps.advertised_tip, state.forward);
}

/// Work below the sync start is handed out where no forward range is open: the oldest open
/// one, its longest prefix that the caps allow, and a finalized one only whole.
pub proof fn law_oldest_open_backfill_range_is_taken(
    state: SchedulerView,
    peer: Seq<u8>,
    generation: u64,
    caps: PeerPullCaps,
    limits: HeaderRequestLimits,
    i: int,
)
    requires
        forall|j: int|
            0 <= j < state.forward.len() ==> !is_open_to(
                state,
                peer,
                caps.advertised_tip,
                #[trigger] state.forward[j],
            ),
        0 <= i < state.backward.len(),
        is_open_to(state, peer, caps.advertised_tip, state.backward[i]),
        forall|j: int|
            0 <= j < i ==> !is_open_to(
                state,
                peer,
                caps.advertised_tip,
                #[trigger] state.backward[j],
            ),
    ensures
        ({
            let whole = state.backward[i];
            match state.taken(peer, generation, caps, limits).0 {
                Some(work) => {
                    &&& is_prefix_of(work.range, whole)
                    &&& work.count == work.range.count
                    &&& is_most(work.count, whole, caps, limits)
                    &&& whole.finalized ==> work.range == whole
                },
                None => whole.finalized && exceeds_a_cap(whole, caps, limits),
            }
        }),
{
    assert(state.queue(RangePriority::Forward) == state.forward);
    assert(state.queue(RangePriority::Backfill) == state.backward);
    lemma_first_open(state, peer, caps.advertised_tip, state.forward);
    lemma_first_open(state, peer, caps.advertised_tip, state.backward);
}

/// Where no queued range is open to a peer, it gets nothing and nothing changes.
pub proof fn law_nothing_open_nothing_taken(
    state: SchedulerView,
    peer: Seq<u8>,
    generation: u64,
    caps: PeerPullCaps,
    limits: HeaderRequestLimits,
)
    requires
        forall|j: int|
            0 <= j < state.forward.len() ==> !is_open_to(
                state,
                peer,
                caps.advertised_tip,
                #[trigger] state.forward[j],
            ),
        forall|j: int|
            0 <= j < state.backward.len() ==> !is_open_to(
                state,
                peer,
                caps.advertised_tip,
                #[trigger] state.backward[j],
            ),
    ensures
        state.taken(peer, generation, caps, limits) == (None::<HeaderWork>, state),
{
    assert(state.queue(RangePriority::Forward) == state.forward);
    assert(state.queue(RangePriority::Backfill) == state.backward);
    lemma_first_open(state, peer, caps.advertised_tip, state.forward);
    lemma_first_open(state, peer, caps.advertised_tip, state.backward);
}

/// Whatever a pull hands out is a prefix of a range that was queued and open to the peer:
/// its first header still links to the link hash, and it ends at or below the advertised
/// tip.
pub proof fn law_work_is_a_prefix_of_queued_work(
    state: SchedulerView,
    peer: Seq<u8>,
    generation: u64,
    caps: PeerPullCaps,
    limits: HeaderRequestLimits,
)
    ensures
        state.taken(peer, generation, caps, limits).0 matches Some(work) ==> {
            &&& exists|whole: RangeRequest|
                {
                    &&& #[trigger] is_open_to(state, peer, caps.advertised_tip, whole)
                    &&& state.forward.contains(whole) || state.backward.contains(whole)
                    &&& is_prefix_of(work.range, whole)
                    &&& is_most(work.range.count, whole, caps, limits)
                }
            &&& work.count == work.range.count
            &&& work.range.start_height.0 + work.range.count - 1 <= caps.advertised_tip.0
        },
{
    assert(state.queue(RangePriority::Forward) == state.forward);
    assert(state.queue(RangePriority::Backfill) == state.backward);
    lemma_first_open(state, peer, caps.advertised_tip, state.forward);
    lemma_first_open(state, peer, caps.advertised_tip, state.backward);
    if let Some(work) = state.taken(peer, generation, caps, limits).0 {
        let whole = state.next_for_peer(peer, caps.advertised_tip).0->0;
        assert(is_open_to(state, peer, caps.advertised_tip, whole));
        assert(is_prefix_of(work.range, whole));
    }
}

/// Whether the assignments after a pull are those before it, with the holders of `whole`
/// moved to `part` and `peer` among them as `generation`.
pub open spec fn is_recorded(
    before: SchedulerView,
    after: SchedulerView,
    peer: Seq<u8>,
    generation: u64,
    whole: RangeRequest,
    part: RangeRequest,
) -> bool {
    &&& after.assigned.contains_key((part, peer)) && after.assigned[(part, peer)] == generation
    &&& forall|other: Seq<u8>|
        other != peer && #[trigger] before.assigned.contains_key((whole, other))
            ==> after.assigned.contains_key((part, other)) && after.assigned[(part, other)]
            == before.assigned[(whole, other)]
    &&& forall|other: Seq<u8>|
        other != peer && !before.assigned.contains_key((whole, other))
            ==> #[trigger] after.assigned.contains_key((part, other))
            == before.assigned.contains_key((part, other))
    &&& part != whole ==> forall|other: Seq<u8>|
        !#[trigger] after.assigned.contains_key((whole, other))
    &&& forall|range: RangeRequest, other: Seq<u8>|
        range != whole && range != part ==> #[trigger] after.assigned.contains_key((range, other))
            == before.assigned.contains_key((range, other)) && (before.assigned.contains_key(
            (range, other),
        ) ==> after.assigned[(range, other)] == before.assigned[(range, other)])
}

/// Whether a queue after its `i`-th range was handed out as `part` is in order: the range
/// stays queued, cut down to the part, until its third peer takes it out.
pub open spec fn is_requeued(
    before: SchedulerView,
    queue: Seq<RangeRequest>,
    after: Seq<RangeRequest>,
    i: int,
    part: RangeRequest,
) -> bool {
    let held = Set::new(|p: Seq<u8>| before.assigned.contains_key((queue[i], p))).len();
    &&& held < 2 ==> after == queue.update(i, part)
    &&& held == 2 && !queue.remove(i).contains(queue[i]) ==> after == queue.remove(i)
}

/// A pull changes what it says and nothing else: the taken range is recorded under the
/// session, a range that was cut down is cut down in the queue too and its other holders
/// keep it, a range that reached its third peer leaves the queue, and everything else stays.
/// A finalized range that is not handed out is still there, first in line.
pub proof fn law_pull_of_forward_work_is_recorded(
    state: SchedulerView,
    peer: Seq<u8>,
    generation: u64,
    caps: PeerPullCaps,
    limits: HeaderRequestLimits,
    i: int,
)
    requires
        queues_are_sorted(state),
        0 <= i < state.forward.len(),
        is_open_to(state, peer, caps.advertised_tip, state.forward[i]),
        forall|j: int|
            0 <= j < i ==> !is_open_to(
                state,
                peer,
                caps.advertised_tip,
                #[trigger] state.forward[j],
            ),
    ensures
        ({
            let (work, after) = state.taken(peer, generation, caps, limits);
            &&& after.covered == state.covered
            &&& after.backward == state.backward
            &&& match work {
                Some(work) => {
                    &&& is_recorded(state, after, peer, generation, state.forward[i], work.range)
                    &&& is_requeued(state, state.forward, after.forward, i, work.range)
                },
                None => {
                    &&& after.assigned == state.assigned
                    &&& (forall|h: int|
                        state.forward[i].start_height.0 <= h < state.forward[i].start_height.0
                            + state.forward[i].count ==> state.covered.contains(h)) || (
                    after.forward.len() > 0 && after.forward[0] == state.forward[i])
                    &&& forall|j: int|
                        0 <= j < state.forward.len() && j != i ==> after.forward.contains(
                            #[trigger] state.forward[j],
                        )
                },
            }
        }),
{
    assert(state.queue(RangePriority::Forward) == state.forward);
    lemma_first_open(state, peer, caps.advertised_tip, state.forward);
    lemma_take_at(state, peer, generation, caps, limits, RangePriority::Forward, i);
}

/// As for forward work, where no forward range is open.
pub proof fn law_pull_of_backfill_work_is_recorded(
    state: SchedulerView,
    peer: Seq<u8>,
    generation: u64,
    caps: PeerPullCaps,
    limits: HeaderRequestLimits,
    i: int,
)
    requires
        queues_are_sorted(state),
        forall|j: int|
            0 <= j < state.forward.len() ==> !is_open_to(
                state,
                peer,
                caps.advertised_tip,
                #[trigger] state.forward[j],
            ),
        0 <= i < state.backward.len(),
        is_open_to(state, peer, caps.advertised_tip, state.backward[i]),
        forall|j: int|
            0 <= j < i ==> !is_open_to(
                state,
                peer,
                caps.advertised_tip,
                #[trigger] state.backward[j],
            ),
    ensures
        ({
            let (work, after) = state.taken(peer, generation, caps, limits);
            &&& after.covered == state.covered
            &&& after.forward == state.forward
            &&& match work {
                Some(work) => {
                    &&& is_recorded(state, after, peer, generation, state.backward[i], work.range)
                    &&& is_requeued(state, state.backward, after.backward, i, work.range)
                },
                None => {
                    &&& after.assigned == state.assigned
                    &&& (forall|h: int|
                        state.backward[i].start_height.0 <= h < state.backward[i].start_height.0
                            + state.backward[i].count ==> state.covered.contains(h)) || (
                    after.backward.len() > 0 && after.backward[0] == state.backward[i])
                    &&& forall|j: int|
                        0 <= j < state.backward.len() && j != i ==> after.backward.contains(
                            #[trigger] state.backward[j],
                        )
                },
            }
        }),
{
    assert(state.queue(RangePriority::Forward) == state.forward);
    assert(state.queue(RangePriority::Backfill) == state.backward);
    lemma_first_open(state, peer, caps.advertised_tip, state.forward);
    lemma_first_open(state, peer, caps.advertised_tip, state.backward);
    lemma_take_at(state, peer, generation, caps, limits, RangePriority::Backfill, i);
}

/// What a pull of the `i`-th range of a queue leaves behind.
proof fn lemma_take_at(
    state: SchedulerView,
    peer: Seq<u8>,
    generation: u64,
    caps: PeerPullCaps,
    limits: HeaderRequestLimits,
    priority: RangePriority,
    i: int,
)
    requires
        queues_are_sorted(state),
        0 <= i < state.queue(priority).len(),
        is_open_to(state, peer, caps.advertised_tip, state.queue(priority)[i]),
        forall|j: int|
            0 <= j < i ==> !is_open_to(
                state,
                peer,
                caps.advertised_tip,
                #[trigger] state.queue(priority)[j],
            ),
        state.next_for_peer(peer, caps.advertised_tip) == (
            Some(state.queue(priority)[i]),
            state.popped(priority, i),
        ),
    ensures
        ({
            let queue = state.queue(priority);
            let (work, after) = state.taken(peer, generation, caps, limits);
            &&& after.covered == state.covered
            &&& after == after.with_queue(priority, after.queue(priority))
            &&& priority == RangePriority::Forward ==> after.backward == state.backward
            &&& priority == RangePriority::Backfill ==> after.forward == state.forward
            &&& match work {
                Some(work) => {
                    &&& is_recorded(state, after, peer, generation, queue[i], work.range)
                    &&& is_requeued(state, queue, after.queue(priority), i, work.range)
                },
                None => {
                    &&& after.assigned == state.assigned
                    &&& (forall|h: int|
                        queue[i].start_height.0 <= h < queue[i].start_height.0 + queue[i].count
                            ==> state.covered.contains(h)) || (after.queue(priority).len() > 0
                        && after.queue(priority)[0] == queue[i])
                    &&& forall|j: int|
                        0 <= j < queue.len() && j != i ==> after.queue(priority).contains(
                            #[trigger] queue[j],
                        )
                },
            }
        }),
{
    let queue = state.queue(priority);
    let whole = queue[i];
    let popped = state.popped(priority, i);
    let (work, after) = state.taken(peer, generation, caps, limits);
    let holders = crate::header_sync::assignments::holders(state.assigned, whole);
    assert(Set::new(|p: Seq<u8>| state.assigned.contains_key((whole, p))) =~= holders);
    assert(whole.priority == priority);
    let kept = popped.queue(priority);
    match work {
        Some(work) => {
            let part = work.range;
            if part != whole {
                scheduler_laws::lemma_first_match_is_first(kept, scheduler::equals(whole));
                if holders.len() < 2 {
                    assert(kept == queue);
                    assert(scheduler::is_first(queue, scheduler::equals(whole), i)) by {
                        assert forall|j: int| 0 <= j < i implies !scheduler::equals(whole)(
                            #[trigger] queue[j],
                        ) by {
                            assert(!is_open_to(state, peer, caps.advertised_tip, queue[j]));
                        }
                    }
                    let found = scheduler::first_match(queue, scheduler::equals(whole))->0;
                    assert(found == i) by {
                        assert(scheduler::is_first(queue, scheduler::equals(whole), found));
                        assert(found < i || i < found || found == i);
                        if i < found {
                            assert(!scheduler::equals(whole)(queue[i]));
                        }
                    }
                    assert(after.queue(priority) == queue.update(i, part));
                } else if !queue.remove(i).contains(whole) {
                    assert(kept == queue.remove(i));
                    if let Some(k) = scheduler::first_match(kept, scheduler::equals(whole)) {
                        assert(kept[k] == whole);
                    }
                    assert(after.queue(priority) == queue.remove(i));
                }
            } else {
                if holders.len() < 2 {
                    assert(queue.update(i, part) =~= queue);
                }
            }
        },
        None => {
            let front = after.queue(priority);
            assert(state.is_covered(whole) ==> forall|h: int|
                whole.start_height.0 <= h < whole.start_height.0 + whole.count
                    ==> state.covered.contains(h)) by {
                if state.is_covered(whole) {
                    assert forall|h: int|
                        whole.start_height.0 <= h < whole.start_height.0
                            + whole.count implies state.covered.contains(h) by {
                        assert(whole.heights().contains(h));
                    }
                }
            }
            assert forall|j: int| 0 <= j < queue.len() && j != i implies front.contains(
                #[trigger] queue[j],
            ) by {
                let k = if kept.len() == queue.len() {
                    j
                } else if j < i {
                    j
                } else {
                    j - 1
                };
                assert(kept[k] == queue[j]);
                if state.is_covered(whole) {
                    assert(front[k] == queue[j]);
                } else {
                    assert(front[k + 1] == queue[j]);
                }
            }
        },
    }
}

} // verus!
