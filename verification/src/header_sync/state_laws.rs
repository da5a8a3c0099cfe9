//! What work a node's header-sync state calls for.

use crate::header_sync::config;
use crate::header_sync::peer_state::PeerHeaderState;
use crate::header_sync::ranges::{RangePriority, RangeRequest};
use crate::header_sync::scheduler::SchedulerView;
use crate::header_sync::state::{self, HeaderSyncCore};
use crate::types::Height;
use vstd::prelude::*;

verus! {

/// Whether a checkpoint above genesis lies at or below `height`.
pub open spec fn passes_a_checkpoint(checkpoints: Seq<Height>, height: Height) -> bool {
    exists|i: int| 0 <= i < checkpoints.len() && 1 <= (#[trigger] checkpoints[i]).0 <= height.0
}

/// Whether there is no checkpoint above genesis.
pub open spec fn no_checkpoints(checkpoints: Seq<Height>) -> bool {
    forall|i: int| 0 <= i < checkpoints.len() ==> (#[trigger] checkpoints[i]).0 == 0
}

/// Whether commitment roots are collected with the next headers: the last checkpoint is
/// neither finalized nor at or below the sync start, and its header may still have to be
/// confirmed.
pub open spec fn wants_roots<T, R, S>(
    sync: HeaderSyncCore<T, R, S>,
    last_checkpoint: Height,
) -> bool {
    &&& sync.trusted_sync_start.0.0 < last_checkpoint.0
    &&& sync.finalized_height.0 < last_checkpoint.0
    &&& sync.best_header_tip.0 <= last_checkpoint.0
}

/// The lowest checkpoint from a height on is a checkpoint, and none from there on is lower.
proof fn lemma_lowest(checkpoints: Seq<Height>, from: Height)
    ensures
        match config::lowest_from(checkpoints, from) {
            Some(lowest) => checkpoints.contains(lowest) && lowest.0 >= from.0 && forall|i: int|
                0 <= i < checkpoints.len() && (#[trigger] checkpoints[i]).0 >= from.0 ==> lowest.0
                    <= checkpoints[i].0,
            None => forall|i: int|
                0 <= i < checkpoints.len() ==> (#[trigger] checkpoints[i]).0 < from.0,
        },
{
    match config::lowest_from(checkpoints, from) {
        Some(lowest) => {
            assert(config::is_lowest_from(checkpoints, from, lowest));
        },
        None => {
            assert forall|i: int| 0 <= i < checkpoints.len() implies (#[trigger] checkpoints[i]).0
                < from.0 by {
                if checkpoints[i].0 >= from.0 {
                    lemma_some_lowest(checkpoints, from, i);
                }
            }
        },
    }
}

/// Where a checkpoint lies at or above a height, there is a lowest one that does.
proof fn lemma_some_lowest(checkpoints: Seq<Height>, from: Height, i: int)
    requires
        0 <= i < checkpoints.len(),
        checkpoints[i].0 >= from.0,
    ensures
        exists|lowest: Height| config::is_lowest_from(checkpoints, from, lowest),
    decreases checkpoints[i].0,
{
    if exists|j: int|
        0 <= j < checkpoints.len() && from.0 <= (#[trigger] checkpoints[j]).0
            < checkpoints[i].0 {
        let j = choose|j: int|
            0 <= j < checkpoints.len() && from.0 <= (#[trigger] checkpoints[j]).0
                < checkpoints[i].0;
        lemma_some_lowest(checkpoints, from, j);
    } else {
        assert(config::is_lowest_from(checkpoints, from, checkpoints[i]));
    }
}

/// The best tip is at least every tip that a peer with a valid status advertises.
proof fn lemma_best_tip_exists(peers: Map<Seq<u8>, PeerHeaderState>, among: Set<Seq<u8>>)
    requires
        among.finite(),
        among.subset_of(peers.dom()),
    ensures
        (forall|peer: Seq<u8>| #[trigger] among.contains(peer) ==> !peers[peer].received_status)
            || exists|best: Seq<u8>|
            {
                &&& #[trigger] among.contains(best) && peers[best].received_status
                &&& forall|peer: Seq<u8>| #[trigger]
                    among.contains(peer) && peers[peer].received_status
                        ==> peers[peer].advertised_tip.0 <= peers[best].advertised_tip.0
            },
    decreases among.len(),
{
    if among.len() == 0 {
        assert(among =~= Set::empty());
    } else {
        let one = among.choose();
        let rest = among.remove(one);
        lemma_best_tip_exists(peers, rest);
        assert forall|peer: Seq<u8>| #[trigger] among.contains(peer) implies peer == one
            || rest.contains(peer) by {}
        if forall|peer: Seq<u8>| #[trigger] rest.contains(peer) ==> !peers[peer].received_status {
            if peers[one].received_status {
                assert(among.contains(one) && peers[one].received_status);
            }
        } else {
            let best = choose|best: Seq<u8>|
                {
                    &&& #[trigger] rest.contains(best) && peers[best].received_status
                    &&& forall|peer: Seq<u8>| #[trigger]
                        rest.contains(peer) && peers[peer].received_status
                            ==> peers[peer].advertised_tip.0 <= peers[best].advertised_tip.0
                };
            assert(among.contains(best));
            assert(among.contains(one));
            if peers[one].received_status && peers[one].advertised_tip.0
                > peers[best].advertised_tip.0 {
                assert(among.contains(one) && peers[one].received_status);
            }
        }
    }
}

/// The tip that sync goes for is advertised by a peer with a valid status, and no such peer
/// advertises a higher one; without such a peer it is the fallback.
pub proof fn law_best_tip_is_the_highest_advertised(
    peers: Map<Seq<u8>, PeerHeaderState>,
    fallback: Height,
)
    requires
        peers.dom().finite(),
    ensures
        ({
            let tip = state::best_peer_tip(peers, fallback);
            &&& forall|peer: Seq<u8>| #[trigger]
                peers.contains_key(peer) && peers[peer].received_status
                    ==> peers[peer].advertised_tip.0 <= tip.0
            &&& (exists|peer: Seq<u8>| #[trigger]
                peers.contains_key(peer) && peers[peer].received_status)
                ==> exists|peer: Seq<u8>| #[trigger]
                peers.contains_key(peer) && peers[peer].received_status
                    && peers[peer].advertised_tip == tip
            &&& (forall|peer: Seq<u8>| #[trigger]
                peers.contains_key(peer) ==> !peers[peer].received_status) ==> tip == fallback
        }),
{
    lemma_best_tip_exists(peers, peers.dom());
    if exists|peer: Seq<u8>| #[trigger] peers.contains_key(peer) && peers[peer].received_status {
        let some = choose|peer: Seq<u8>| #[trigger]
            peers.contains_key(peer) && peers[peer].received_status;
        assert(peers.dom().contains(some));
        let best = choose|best: Seq<u8>|
            {
                &&& #[trigger] peers.dom().contains(best) && peers[best].received_status
                &&& forall|peer: Seq<u8>| #[trigger]
                    peers.dom().contains(peer) && peers[peer].received_status
                        ==> peers[peer].advertised_tip.0 <= peers[best].advertised_tip.0
            };
        assert(peers.contains_key(best));
        assert(state::is_advertised(peers, peers[best].advertised_tip));
        assert(state::is_best_tip(peers, peers[best].advertised_tip));
    } else {
        if exists|tip: Height| state::is_best_tip(peers, tip) {
            let tip = choose|tip: Height| state::is_best_tip(peers, tip);
            assert(state::is_advertised(peers, tip));
        }
    }
}

/// A forward range is wanted exactly while the best header is behind the tip, and the tip
/// reaches the first checkpoint, if there is one: sync stops at no height below the tip.
pub proof fn law_forward_work_is_wanted_below_the_tip<T, R, S>(
    sync: HeaderSyncCore<T, R, S>,
    tip: Height,
    checkpoints: Seq<Height>,
    last_checkpoint: Height,
)
    ensures
        sync.next_forward_range(tip, checkpoints, last_checkpoint) is Some <==> tip.0
            > sync.best_header_tip.0 && (no_checkpoints(checkpoints) || passes_a_checkpoint(
            checkpoints,
            tip,
        )),
{
    lemma_lowest(checkpoints, Height(1));
    match config::lowest_from(checkpoints, Height(1)) {
        Some(first) => {
            let i = choose|i: int| 0 <= i < checkpoints.len() && checkpoints[i] == first;
            assert(checkpoints[i].0 >= 1);
            assert(passes_a_checkpoint(checkpoints, tip) <==> first.0 <= tip.0);
        },
        None => {
            assert(no_checkpoints(checkpoints));
        },
    }
}

/// Where a forward range starts and what it links to: right after the best header, or at the
/// best header again while roots are collected and its parent is known, so that its root is
/// confirmed by the header that follows it.
pub proof fn law_forward_range_continues_the_best_header<T, R, S>(
    sync: HeaderSyncCore<T, R, S>,
    tip: Height,
    checkpoints: Seq<Height>,
    last_checkpoint: Height,
)
    ensures
        sync.next_forward_range(tip, checkpoints, last_checkpoint) matches Some(range) ==> {
            let again = wants_roots(sync, last_checkpoint) && sync.best_header_parent_hash is Some
                && sync.best_header_tip.0 > 0;
            &&& again ==> range.start_height == sync.best_header_tip && Some(range.link_hash)
                == sync.best_header_parent_hash
            &&& !again ==> range.start_height.0 == sync.best_header_tip.0 + 1 && range.link_hash
                == sync.best_header_hash
            &&& range.priority == RangePriority::Forward
            &&& range.want_tree_aux_roots <==> wants_roots(sync, last_checkpoint)
            &&& range.count >= 1
        },
{
    lemma_lowest(checkpoints, Height(1));
}

/// Where a forward range ends. At or past the first checkpoint it ends exactly at the tip,
/// and below it exactly at that checkpoint; while roots are collected it ends at the header
/// after the last checkpoint at the latest.
pub proof fn law_forward_range_ends_at_its_goal<T, R, S>(
    sync: HeaderSyncCore<T, R, S>,
    tip: Height,
    checkpoints: Seq<Height>,
    last_checkpoint: Height,
)
    ensures
        sync.next_forward_range(tip, checkpoints, last_checkpoint) matches Some(range) ==> {
            let end = range.start_height.0 + range.count - 1;
            let below_first = !no_checkpoints(checkpoints) && !passes_a_checkpoint(
                checkpoints,
                sync.best_header_tip,
            );
            let roots = wants_roots(sync, last_checkpoint);
            let cap = last_checkpoint.0 + 1;
            &&& end > sync.best_header_tip.0
            &&& range.finalized <==> below_first
            &&& !below_first && !roots ==> end == tip.0
            &&& !below_first && roots ==> end == (if tip.0 <= cap {
                tip.0 as int
            } else {
                cap as int
            })
            &&& below_first ==> forall|i: int|
                0 <= i < checkpoints.len() && (#[trigger] checkpoints[i]).0 >= 1 ==> end
                    <= checkpoints[i].0
            &&& below_first && !roots ==> checkpoints.contains(Height(end as u32))
            &&& below_first && roots ==> checkpoints.contains(Height(end as u32)) || end == cap
        },
{
    lemma_lowest(checkpoints, Height(1));
    if let Some(first) = config::lowest_from(checkpoints, Height(1)) {
        let i = choose|i: int| 0 <= i < checkpoints.len() && checkpoints[i] == first;
        assert(checkpoints[i].0 >= 1);
        assert(passes_a_checkpoint(checkpoints, sync.best_header_tip) <==> first.0
            <= sync.best_header_tip.0);
        if let Some(range) = sync.next_forward_range(tip, checkpoints, last_checkpoint) {
            let end = range.start_height.0 + range.count - 1;
            if sync.best_header_tip.0 < first.0 && end == first.0 {
                assert(Height(end as u32) == first);
            }
        }
    } else {
        assert(no_checkpoints(checkpoints));
    }
}

/// Whether every height of a range is covered.
pub open spec fn all_covered(schedule: SchedulerView, range: RangeRequest) -> bool {
    forall|h: int|
        range.start_height.0 <= h < range.start_height.0 + range.count
            ==> #[trigger] schedule.covered.contains(h)
}

/// Whether work of the priority of a range that starts where it does is queued.
pub open spec fn start_is_queued(schedule: SchedulerView, range: RangeRequest) -> bool {
    match range.priority {
        RangePriority::Forward => exists|i: int|
            0 <= i < schedule.forward.len() && (#[trigger] schedule.forward[i]).start_height
                == range.start_height && schedule.forward[i].priority == range.priority,
        RangePriority::Backfill => exists|i: int|
            0 <= i < schedule.backward.len() && (#[trigger] schedule.backward[i]).start_height
                == range.start_height && schedule.backward[i].priority == range.priority,
    }
}

/// Whether work of the priority of a range that starts where it does is handed out.
pub open spec fn start_is_handed_out(schedule: SchedulerView, range: RangeRequest) -> bool {
    exists|key: (RangeRequest, Seq<u8>)| #[trigger]
        schedule.assigned.contains_key(key) && key.0.start_height == range.start_height
            && key.0.priority == range.priority
}

/// Offered work is queued last, unless all its heights are covered or work that starts at the
/// same height is queued or handed out already; nothing else changes.
pub proof fn law_offered_work_is_queued(schedule: SchedulerView, range: RangeRequest)
    ensures
        ({
            let after = schedule.ensured(range, range.priority);
            if all_covered(schedule, range) || start_is_queued(schedule, range)
                || start_is_handed_out(schedule, range) {
                after == schedule
            } else {
                match range.priority {
                    RangePriority::Forward => after == (SchedulerView {
                        forward: schedule.forward.push(range),
                        ..schedule
                    }),
                    RangePriority::Backfill => after == (SchedulerView {
                        backward: schedule.backward.push(range),
                        ..schedule
                    }),
                }
            }
        }),
{
    let priority = range.priority;
    assert(all_covered(schedule, range) == schedule.is_covered(range)) by {
        if schedule.is_covered(range) {
            assert forall|h: int|
                range.start_height.0 <= h < range.start_height.0 + range.count implies #[trigger]
            schedule.covered.contains(h) by {
                assert(range.heights().contains(h));
            }
        }
    }
    let queue = schedule.queue(priority);
    let queued = exists|i: int|
        0 <= i < queue.len() && (#[trigger] queue[i]).start_height == range.start_height
            && queue[i].priority == priority;
    assert(queued == start_is_queued(schedule, range)) by {
        match priority {
            RangePriority::Forward => assert(queue == schedule.forward),
            RangePriority::Backfill => assert(queue == schedule.backward),
        }
    }
    if queue.contains(range) {
        let i = choose|i: int| 0 <= i < queue.len() && queue[i] == range;
        assert(queue[i].start_height == range.start_height);
    }
    if crate::header_sync::assignments::is_held(schedule.assigned, range) {
        let peer = choose|peer: Seq<u8>| #[trigger] schedule.assigned.contains_key((range, peer));
        assert(schedule.assigned.contains_key((range, peer)));
    }
    assert(schedule.is_known(range, priority) == (queued || start_is_handed_out(schedule, range)));
}

/// Forward sync never stalls: whenever a peer with a valid status advertises a tip above the
/// best header, and that tip reaches the first checkpoint, if there is one, a range that
/// extends the best header is offered, toward a tip that is at least as high and that a peer
/// advertises. It is queued unless it is known or covered already.
pub proof fn law_forward_sync_never_stalls<T, R, S>(
    sync: HeaderSyncCore<T, R, S>,
    checkpoints: Seq<Height>,
    last_checkpoint: Height,
    peer: Seq<u8>,
)
    requires
        sync.peers@.dom().finite(),
        sync.peers@.contains_key(peer),
        sync.peers@[peer].received_status,
        sync.peers@[peer].advertised_tip.0 > sync.best_header_tip.0,
        no_checkpoints(checkpoints) || passes_a_checkpoint(
            checkpoints,
            sync.peers@[peer].advertised_tip,
        ),
    ensures
        ({
            let tip = state::best_peer_tip(sync.peers@, sync.best_header_tip);
            &&& tip.0 >= sync.peers@[peer].advertised_tip.0
            &&& exists|other: Seq<u8>| #[trigger]
                sync.peers@.contains_key(other) && sync.peers@[other].received_status
                    && sync.peers@[other].advertised_tip == tip
            &&& sync.next_forward_range(tip, checkpoints, last_checkpoint) matches Some(range) && {
                &&& range.start_height.0 <= sync.best_header_tip.0 + 1
                &&& range.start_height.0 + range.count - 1 > sync.best_header_tip.0
                &&& !wants_roots(sync, last_checkpoint) && (no_checkpoints(checkpoints)
                    || passes_a_checkpoint(checkpoints, sync.best_header_tip))
                    ==> range.start_height.0 == sync.best_header_tip.0 + 1
                    && range.start_height.0 + range.count - 1 == tip.0
                &&& !all_covered(sync.schedule@, range) && !start_is_queued(sync.schedule@, range)
                    && !start_is_handed_out(sync.schedule@, range) ==> sync.schedule@.ensured(
                    range,
                    RangePriority::Forward,
                ).forward == sync.schedule@.forward.push(range)
            }
        }),
{
    let tip = state::best_peer_tip(sync.peers@, sync.best_header_tip);
    law_best_tip_is_the_highest_advertised(sync.peers@, sync.best_header_tip);
    if passes_a_checkpoint(checkpoints, sync.peers@[peer].advertised_tip) {
        let i = choose|i: int|
            0 <= i < checkpoints.len() && 1 <= (#[trigger] checkpoints[i]).0
                <= sync.peers@[peer].advertised_tip.0;
        assert(1 <= checkpoints[i].0 <= tip.0);
        assert(passes_a_checkpoint(checkpoints, tip));
    }
    law_forward_work_is_wanted_below_the_tip(sync, tip, checkpoints, last_checkpoint);
    law_forward_range_continues_the_best_header(sync, tip, checkpoints, last_checkpoint);
    law_forward_range_ends_at_its_goal(sync, tip, checkpoints, last_checkpoint);
    if let Some(range) = sync.next_forward_range(tip, checkpoints, last_checkpoint) {
        law_offered_work_is_queued(sync.schedule@, range);
    }
}

/// Backfill never stalls below the sync start: while it is turned on and its cursor is below
/// the sync start, the range that is wanted picks up at the cursor and ends at the next
/// checkpoint, or at the sync start where that comes first, and asks for roots.
pub proof fn law_backfill_never_stalls<T, R, S>(
    sync: HeaderSyncCore<T, R, S>,
    checkpoints: Seq<Height>,
)
    requires
        sync.backfill_tip.0 < sync.trusted_sync_start.0.0,
    ensures
        sync.next_backfill_range(false, checkpoints) is None,
        sync.next_backfill_range(true, checkpoints) matches Some(range) && {
            let end = range.start_height.0 + range.count - 1;
            let again = sync.backfill_parent_hash is Some && sync.backfill_tip.0 > 0;
            &&& range.finalized
            &&& range.want_tree_aux_roots
            &&& range.priority == RangePriority::Backfill
            &&& again ==> range.start_height == sync.backfill_tip && Some(range.link_hash)
                == sync.backfill_parent_hash
            &&& !again ==> range.start_height.0 == sync.backfill_tip.0 + 1 && range.link_hash
                == sync.backfill_hash
            &&& sync.backfill_tip.0 < end <= sync.trusted_sync_start.0.0
            &&& end == sync.trusted_sync_start.0.0 || checkpoints.contains(Height(end as u32))
            &&& forall|i: int|
                0 <= i < checkpoints.len() && (#[trigger] checkpoints[i]).0 > sync.backfill_tip.0
                    ==> end <= checkpoints[i].0
        },
{
    let next = state::next_or_same(sync.backfill_tip);
    lemma_lowest(checkpoints, next);
    if let Some(range) = sync.next_backfill_range(true, checkpoints) {
        let end = range.start_height.0 + range.count - 1;
        if let Some(lowest) = config::lowest_from(checkpoints, next) {
            if end == lowest.0 {
                assert(Height(end as u32) == lowest);
            }
        }
    }
}

/// Once the cursor is at the sync start, the last thing that backfill wants is the pair of
/// headers that confirms the root there, until it is confirmed.
pub proof fn law_backfill_confirms_the_sync_start<T, R, S>(
    sync: HeaderSyncCore<T, R, S>,
    enabled: bool,
    checkpoints: Seq<Height>,
)
    requires
        sync.backfill_tip.0 >= sync.trusted_sync_start.0.0,
    ensures
        match sync.next_backfill_range(enabled, checkpoints) {
            Some(range) => {
                &&& enabled
                &&& sync.backfill_tip == sync.trusted_sync_start.0
                &&& sync.trusted_sync_start.0.0 > 0
                &&& !sync.backfill_sync_start_root_confirmed
                &&& range.start_height == sync.trusted_sync_start.0
                &&& range.count == 2
                &&& Some(range.link_hash) == sync.backfill_parent_hash
                &&& !range.finalized
                &&& range.want_tree_aux_roots
                &&& range.priority == RangePriority::Backfill
            },
            None => !enabled || sync.trusted_sync_start.0.0 == 0 || sync.backfill_tip
                != sync.trusted_sync_start.0 || sync.backfill_sync_start_root_confirmed
                || sync.backfill_parent_hash is None || sync.trusted_sync_start.0.0 == u32::MAX,
        },
{
}

} // verus!
