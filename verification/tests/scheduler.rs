use zakura::header_sync::ranges::{RangePriority, RangeRequest};
use zakura::header_sync::scheduler::{
    clamp_header_sync_request_count, HeaderRequestLimits, HeaderWork, PeerPullCaps,
    RangeScheduler, ReturnReason, HEADER_SYNC_FANOUT,
};
use zakura::types::{BlockHash, Height, ZakuraPeerId};

fn pid(byte: u8) -> ZakuraPeerId {
    ZakuraPeerId::new(vec![byte; 32])
}

fn range(start: u32, count: u32, hash: u8, priority: RangePriority) -> RangeRequest {
    RangeRequest {
        start_height: Height(start),
        count,
        link_hash: BlockHash([hash; 32]),
        finalized: false,
        want_tree_aux_roots: false,
        priority,
    }
}

fn forward_range(start: u32, count: u32) -> RangeRequest {
    range(start, count, 1, RangePriority::Forward)
}

fn backward_range(start: u32, count: u32) -> RangeRequest {
    range(start, count, 2, RangePriority::Backfill)
}

fn caps(tip: u32, max_headers: u32) -> PeerPullCaps {
    PeerPullCaps {
        advertised_tip: Height(tip),
        max_headers_per_response: max_headers,
    }
}

fn limits() -> HeaderRequestLimits {
    HeaderRequestLimits {
        hard_max: 1_000,
        frame_max: 1_000,
    }
}

fn take(
    queue: &mut RangeScheduler,
    peer: &ZakuraPeerId,
    generation: u64,
    caps: PeerPullCaps,
) -> Option<HeaderWork> {
    queue.take_for_peer(peer, generation, caps, limits())
}

#[test]
fn take_for_peer_prefers_forward_and_respects_advertised_tip() {
    let mut queue = RangeScheduler::new();
    queue.ensure_backward(backward_range(1, 3));
    queue.ensure_forward(forward_range(10, 2));
    let peer = pid(1);

    // Tip below the forward range's end: only backward is eligible.
    let low_tip = take(&mut queue, &peer, 1, caps(3, 100)).expect("backward is within tip");
    assert_eq!(low_tip.range.priority, RangePriority::Backfill);
    assert_eq!(low_tip.range.start_height, Height(1));

    // A second peer with a tip covering the forward range gets forward first.
    let peer2 = pid(2);
    let forward = take(&mut queue, &peer2, 1, caps(100, 100)).expect("forward is within tip");
    assert_eq!(forward.range.priority, RangePriority::Forward);
    assert_eq!(forward.range.start_height, Height(10));
}

#[test]
fn take_for_peer_dedups_per_peer_and_fans_out_to_distinct_peers() {
    let mut queue = RangeScheduler::new();
    queue.ensure_forward(forward_range(1, 1));

    let first = pid(1);
    let work = take(&mut queue, &first, 1, caps(100, 100)).expect("first take succeeds");
    assert_eq!(work.range.start_height, Height(1));
    // The same peer cannot re-take the same range.
    assert!(
        take(&mut queue, &first, 1, caps(100, 100)).is_none(),
        "a peer must not be assigned the same range twice"
    );

    // Distinct peers can take it, up to the fanout cap.
    let second = pid(2);
    let third = pid(3);
    assert!(take(&mut queue, &second, 1, caps(100, 100)).is_some());
    assert!(take(&mut queue, &third, 1, caps(100, 100)).is_some());
    // A fourth distinct peer is beyond the fanout cap.
    let fourth = pid(4);
    assert!(
        take(&mut queue, &fourth, 1, caps(100, 100)).is_none(),
        "fanout is capped at {HEADER_SYNC_FANOUT} distinct peers"
    );
}

#[test]
fn take_for_peer_clamps_count_to_peer_cap() {
    let mut queue = RangeScheduler::new();
    queue.ensure_forward(forward_range(1, 50));
    let peer = pid(1);
    let work = take(&mut queue, &peer, 1, caps(100, 5)).expect("take succeeds");
    assert_eq!(
        work.count, 5,
        "count is clamped to the peer's advertised cap"
    );
}

#[test]
fn take_for_peer_skips_finalized_range_that_would_shrink() {
    let mut queue = RangeScheduler::new();
    let mut range = forward_range(1, 50);
    range.finalized = true;
    queue.ensure_forward(range);
    let peer = pid(1);
    // Cap 5 would shrink the 50-count finalized range: must not be assigned.
    assert!(
        take(&mut queue, &peer, 1, caps(100, 5)).is_none(),
        "a finalized range that would shrink is not requested partially"
    );
    // It remains in the queue for a peer/frame that can serve it whole.
    let work = take(&mut queue, &peer, 1, caps(100, 100)).expect("full-cap peer takes it");
    assert_eq!(work.count, 50);
}

#[test]
fn return_work_timeout_keeps_assignment_other_reasons_clear_it() {
    let mut queue = RangeScheduler::new();
    queue.ensure_forward(forward_range(1, 1));
    let first = pid(1);
    let work = take(&mut queue, &first, 1, caps(100, 100)).expect("take");

    // Timeout return: the range is re-queued but stays assigned to `first`.
    queue.return_work(&first, 1, work.range, ReturnReason::Timeout);
    assert!(
        take(&mut queue, &first, 1, caps(100, 100)).is_none(),
        "a timed-out peer must not immediately re-grab its own range"
    );
    let second = pid(2);
    assert!(
        take(&mut queue, &second, 1, caps(100, 100)).is_some(),
        "a different peer takes the timed-out range"
    );

    // Send-failed return clears the assignment, so the same peer can re-take.
    let mut queue = RangeScheduler::new();
    queue.ensure_forward(forward_range(1, 1));
    let work = take(&mut queue, &first, 2, caps(100, 100)).expect("take");
    queue.return_work(&first, 2, work.range, ReturnReason::SendFailed);
    assert!(
        take(&mut queue, &first, 2, caps(100, 100)).is_some(),
        "a send-failed range is re-takeable by the same peer"
    );
}

#[test]
fn return_work_is_generation_scoped() {
    let mut queue = RangeScheduler::new();
    queue.ensure_forward(forward_range(1, 1));
    let peer = pid(1);

    // The new session (generation 2) holds the range.
    let work = take(&mut queue, &peer, 2, caps(100, 100)).expect("take");
    // An OLD session (generation 1) returns the same range: must be ignored, so
    // the new session keeps its hold (the same peer cannot re-take).
    queue.return_work(&peer, 1, work.range, ReturnReason::Teardown);
    assert!(
        take(&mut queue, &peer, 2, caps(100, 100)).is_none(),
        "an old generation's return must not free the new session's assignment"
    );
}

#[test]
fn mark_covered_prevents_over_fetch_without_stranding() {
    let mut queue = RangeScheduler::new();
    queue.ensure_forward(forward_range(1, 1));
    queue.ensure_forward(forward_range(2, 1));
    let peer = pid(1);

    queue.mark_range_covered(Height(1), Height(1));
    // The covered range is never re-fetched; the next take returns the uncovered
    // range instead of the covered one.
    let work = take(&mut queue, &peer, 1, caps(100, 100)).expect("uncovered range remains");
    assert_eq!(
        work.range.start_height,
        Height(2),
        "a covered range is not re-fetched, the uncovered one is still served"
    );
}

#[test]
fn reset_above_drops_forward_work_past_the_target() {
    let mut queue = RangeScheduler::new();
    queue.ensure_forward(forward_range(1, 1));
    queue.ensure_forward(forward_range(10, 1));
    let peer = pid(1);
    let _high = take(&mut queue, &peer, 1, caps(100, 100));
    let other = pid(2);
    let _low = take(&mut queue, &other, 1, caps(100, 100));

    queue.reset_above(Height(5));
    assert!(
        queue
            .queued(RangePriority::Forward)
            .iter()
            .all(|range| range.end_height() <= Height(5)),
        "forward work above the reset target is dropped"
    );
    assert!(
        !queue.is_assigned(forward_range(10, 1)),
        "assignments above the reset target are cleared"
    );
}

#[test]
fn covered_heights_join_across_intervals() {
    let mut queue = RangeScheduler::new();
    queue.mark_range_covered(Height(1), Height(3));
    queue.mark_range_covered(Height(6), Height(8));
    assert!(!queue.is_covered(forward_range(1, 8)));
    queue.mark_range_covered(Height(4), Height(5));
    assert!(queue.is_covered(forward_range(1, 8)));
    assert!(!queue.is_covered(forward_range(1, 9)));
    queue.mark_height_covered(Height(9));
    assert!(queue.is_covered(forward_range(1, 9)));
    // A covered range is not queued.
    queue.ensure_forward(forward_range(2, 3));
    assert!(queue.queued(RangePriority::Forward).is_empty());
}

#[test]
fn ensure_is_idempotent_and_keyed_by_start() {
    let mut queue = RangeScheduler::new();
    queue.ensure_forward(forward_range(1, 4));
    queue.ensure_forward(forward_range(1, 4));
    queue.ensure_forward(forward_range(1, 9));
    assert_eq!(
        queue.queued(RangePriority::Forward),
        vec![forward_range(1, 4)]
    );
    queue.ensure_backfill(backward_range(1, 4));
    assert_eq!(
        queue.queued(RangePriority::Backfill),
        vec![backward_range(1, 4)]
    );
    // Work that is held is not queued again.
    let mut queue = RangeScheduler::new();
    queue.ensure_forward(forward_range(1, 1));
    for byte in 1..=3 {
        assert!(take(&mut queue, &pid(byte), 1, caps(10, 10)).is_some());
    }
    let before = queue.queued(RangePriority::Forward);
    queue.ensure_forward(forward_range(1, 1));
    assert_eq!(queue.queued(RangePriority::Forward), before);
}

#[test]
fn forgetting_a_peer_releases_its_ranges() {
    let mut queue = RangeScheduler::new();
    queue.ensure_forward(forward_range(1, 1));
    take(&mut queue, &pid(1), 7, caps(10, 10)).expect("take");
    assert_eq!(
        queue.holder_generation(forward_range(1, 1), &pid(1)),
        Some(7)
    );
    queue.forget_peer(&pid(1));
    assert_eq!(queue.holder_generation(forward_range(1, 1), &pid(1)), None);
    take(&mut queue, &pid(2), 1, caps(10, 10));
    queue.clear_assignment(forward_range(1, 1));
    assert!(!queue.is_assigned(forward_range(1, 1)));
}

#[test]
fn request_counts_obey_every_cap() {
    let limits = HeaderRequestLimits {
        hard_max: 160,
        frame_max: 40,
    };
    assert_eq!(clamp_header_sync_request_count(500, 100, limits), 40);
    assert_eq!(clamp_header_sync_request_count(500, 30, limits), 30);
    assert_eq!(clamp_header_sync_request_count(20, 30, limits), 20);
}

#[test]
fn stale_returns_change_nothing() {
    for reason in [
        ReturnReason::SendFailed,
        ReturnReason::EmptyResponse,
        ReturnReason::Teardown,
        ReturnReason::Timeout,
    ] {
        let mut queue = RangeScheduler::new();
        queue.ensure_forward(forward_range(1, 1));
        let peer = pid(1);
        let work = take(&mut queue, &peer, 2, caps(100, 100)).expect("take");
        queue.return_work(&peer, 1, work.range, reason);
        assert_eq!(queue.holder_generation(work.range, &peer), Some(2));
        assert_eq!(queue.queued(RangePriority::Forward), vec![work.range]);
        assert!(take(&mut queue, &peer, 2, caps(100, 100)).is_none());
    }
}
