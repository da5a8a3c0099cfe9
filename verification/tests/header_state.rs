use zakura::header_sync::config::{
    clamp_advertised_range, clamp_inflight, NetworkParams, ZakuraHeaderSyncConfig,
};
use zakura::header_sync::dedup::HeaderHashDedup;
use zakura::header_sync::events::{HeaderSyncFrontiers, HeaderSyncStartup, HeaderSyncStatus};
use zakura::header_sync::meters::{HeaderSyncPeerMeters, RateMeter};
use zakura::header_sync::peer_state::{
    HeaderSyncAdvisoryPeerState, OutstandingRange, PeerHeaderState, ServicePeerDirection,
    StaleLinkFailures,
};
use zakura::header_sync::ranges::{
    count_between, height_after_count, next_height, previous_height, RangePriority, RangeRequest,
};
use zakura::header_sync::scheduler::HeaderRequestLimits;
use zakura::header_sync::state::{HeaderSyncCore, HeaderSyncStartError};
use zakura::time::{Duration, Timestamp};
use zakura::types::{BlockHash, Height, ZakuraPeerId};

type Core = HeaderSyncCore<&'static str, (), ()>;

const START: Timestamp = Timestamp { nanos: 0 };

fn at(seconds: u128) -> Timestamp {
    Timestamp {
        nanos: seconds * 1_000_000_000,
    }
}

fn pid(byte: u8) -> ZakuraPeerId {
    ZakuraPeerId::new(vec![byte; 32])
}

fn hash(byte: u8) -> BlockHash {
    BlockHash([byte; 32])
}

fn config() -> ZakuraHeaderSyncConfig {
    ZakuraHeaderSyncConfig {
        anchor_height: None,
        max_advertised_range: 160,
        max_inflight_per_peer: 4,
        request_limits: HeaderRequestLimits {
            hard_max: 160,
            frame_max: 160,
        },
        inbound_get_headers_count_limit: 160,
        seen_hash_capacity: 2,
        request_timeout: Duration::from_secs(10),
        status_refresh_interval: Duration::from_secs(30),
        empty_headers_retry_delay: Duration::from_secs(2),
    }
}

fn startup(anchor: u32, best: Option<u32>, checkpoints: Vec<u32>) -> HeaderSyncStartup {
    let last_checkpoint_height = Height(checkpoints.iter().copied().max().unwrap_or(0));
    HeaderSyncStartup::new(
        NetworkParams {
            genesis_hash: hash(0),
            checkpoints: checkpoints.into_iter().map(Height).collect(),
            last_checkpoint_height,
        },
        (Height(anchor), hash(9)),
        HeaderSyncFrontiers {
            finalized_height: Height(0),
            verified_block_tip: Height(0),
            verified_block_hash: hash(0),
        },
        best.map(|height| (Height(height), hash(8))),
        config(),
        65_536,
    )
}

fn sync_state(startup: &HeaderSyncStartup) -> Core {
    HeaderSyncCore::new(startup, Ok(()), "best", "empty").expect("the sync start is valid")
}

fn peer_state(tip: u32) -> PeerHeaderState {
    let mut state = PeerHeaderState::new(
        ServicePeerDirection::Outbound,
        (Height(0), hash(0)),
        100,
        2,
        &config(),
        Duration::from_secs(1),
        Duration::from_secs(1),
        START,
    );
    state.received_status = true;
    state.advertised_tip = Height(tip);
    state
}

fn forward(sync: &Core) -> Vec<RangeRequest> {
    sync.schedule.queued(RangePriority::Forward)
}

fn backfill(sync: &Core) -> Vec<RangeRequest> {
    sync.schedule.queued(RangePriority::Backfill)
}

#[test]
fn startup_takes_over_the_durable_tip() {
    let fresh = sync_state(&startup(5, None, vec![]));
    assert_eq!(
        (fresh.best_header_tip, fresh.best_header_hash),
        (Height(5), hash(9))
    );
    let resumed = sync_state(&startup(5, Some(7), vec![]));
    assert_eq!(
        (resumed.best_header_tip, resumed.best_header_hash),
        (Height(7), hash(8))
    );
    assert_eq!(resumed.best_header_history_tree, "best");
    assert_eq!(resumed.backfill_history_tree, "empty");
    assert_eq!(resumed.backfill_hash, hash(0));
    let refused: Result<Core, HeaderSyncStartError> = HeaderSyncCore::new(
        &startup(5, None, vec![]),
        Err(HeaderSyncStartError::UntrustedSyncStart),
        "best",
        "empty",
    );
    assert!(refused.is_err());
}

#[test]
fn the_best_advertised_tip_counts_only_valid_statuses() {
    let mut sync = sync_state(&startup(0, Some(3), vec![]));
    assert_eq!(sync.highest_advertised_tip(), Height(3));
    let mut silent = peer_state(50);
    silent.received_status = false;
    sync.peers.insert(pid(1), silent);
    sync.peers.insert(pid(2), peer_state(20));
    sync.peers.insert(pid(3), peer_state(10));
    assert_eq!(sync.highest_advertised_tip(), Height(20));
}

#[test]
fn forward_range_leads_to_the_best_tip() {
    let startup = startup(0, Some(3), vec![]);
    let mut sync = sync_state(&startup);
    sync.refresh_forward_range(&startup);
    assert!(forward(&sync).is_empty(), "no peer is ahead");
    sync.peers.insert(pid(1), peer_state(10));
    sync.refresh_forward_range(&startup);
    assert_eq!(
        forward(&sync),
        vec![RangeRequest {
            start_height: Height(4),
            count: 7,
            link_hash: hash(8),
            finalized: false,
            want_tree_aux_roots: false,
            priority: RangePriority::Forward,
        }]
    );
}

#[test]
fn forward_range_stops_at_the_first_checkpoint() {
    let startup = startup(0, Some(3), vec![20, 8]);
    let mut short = sync_state(&startup);
    short.peers.insert(pid(1), peer_state(7));
    short.refresh_forward_range(&startup);
    assert!(
        forward(&short).is_empty(),
        "the first checkpoint is out of reach"
    );
    let mut sync = sync_state(&startup);
    sync.peers.insert(pid(1), peer_state(100));
    sync.refresh_forward_range(&startup);
    let range = forward(&sync)[0];
    assert_eq!((range.start_height, range.count), (Height(4), 5));
    assert!(range.finalized);
    assert!(range.want_tree_aux_roots);
}

#[test]
fn forward_range_redelivers_the_best_header_while_roots_are_collected() {
    let mut startup = startup(0, Some(9), vec![8, 20]);
    startup.best_header_parent_hash = Some(hash(7));
    let mut sync = sync_state(&startup);
    sync.peers.insert(pid(1), peer_state(100));
    sync.refresh_forward_range(&startup);
    let range = forward(&sync)[0];
    assert_eq!((range.start_height, range.count), (Height(9), 13));
    assert_eq!(range.link_hash, hash(7));
    assert!(!range.finalized);
    assert!(range.want_tree_aux_roots);
}

#[test]
fn backfill_sweeps_checkpoint_by_checkpoint() {
    let mut startup = startup(12, None, vec![5, 20]);
    startup.backfill_enabled = true;
    let mut sync = sync_state(&startup);
    sync.refresh_backfill_range(&startup);
    assert_eq!(
        backfill(&sync),
        vec![RangeRequest {
            start_height: Height(1),
            count: 5,
            link_hash: hash(0),
            finalized: true,
            want_tree_aux_roots: true,
            priority: RangePriority::Backfill,
        }]
    );

    sync.schedule.mark_range_covered(Height(1), Height(5));
    sync.backfill_tip = Height(5);
    sync.backfill_hash = hash(5);
    sync.backfill_parent_hash = Some(hash(4));
    sync.refresh_backfill_range(&startup);
    let range = backfill(&sync)[0];
    assert_eq!((range.start_height, range.count), (Height(5), 8));
    assert_eq!(range.link_hash, hash(4));

    sync.schedule.mark_range_covered(Height(5), Height(12));
    sync.backfill_tip = Height(12);
    sync.refresh_backfill_range(&startup);
    let stitch = backfill(&sync)[0];
    assert_eq!((stitch.start_height, stitch.count), (Height(12), 2));
    assert!(!stitch.finalized);

    sync.backfill_sync_start_root_confirmed = true;
    sync.schedule.mark_range_covered(Height(12), Height(13));
    sync.refresh_backfill_range(&startup);
    assert!(backfill(&sync).is_empty());
}

#[test]
fn backfill_needs_to_be_enabled() {
    let mut startup = startup(12, None, vec![5]);
    startup.backfill_enabled = false;
    let mut sync = sync_state(&startup);
    sync.refresh_backfill_range(&startup);
    assert!(backfill(&sync).is_empty());
}

#[test]
fn rebasing_needs_distinct_peers() {
    let mut failures = StaleLinkFailures::new();
    for _ in 0..5 {
        failures.record(pid(1));
    }
    assert!(!failures.should_rebase());
    failures.record(pid(2));
    assert!(failures.should_rebase());
    failures.reset();
    assert!(!failures.should_rebase());
    assert_eq!(failures.count, 0);
}

#[test]
fn unconfirmed_summaries_back_a_peer_off() {
    let mut state = HeaderSyncAdvisoryPeerState::new("summary", START);
    assert!(state.is_expired(at(10), Duration::from_secs(10)));
    assert!(!state.is_expired(at(9), Duration::from_secs(10)));
    state.record_unconfirmed(START);
    assert!(!state.is_backed_off(START));
    state.record_unconfirmed(START);
    assert!(state.is_backed_off(at(59)));
    assert!(!state.is_backed_off(at(60)));
    state.refresh_summary("newer", at(1));
    assert_eq!((state.summary, state.failure_count), ("newer", 2));
    state.record_confirmed();
    assert!(!state.is_backed_off(START));
    assert_eq!(state.failure_count, 0);
}

#[test]
fn peers_have_one_slot_and_ordered_requests() {
    let mut state = peer_state(10);
    assert_eq!(state.available_slots(), 1);
    let outstanding = |start: u32| OutstandingRange {
        range: RangeRequest {
            start_height: Height(start),
            count: 1,
            link_hash: hash(1),
            finalized: false,
            want_tree_aux_roots: false,
            priority: RangePriority::Forward,
        },
        deadline: at(1),
        expected_max_count: 1,
        clear_assignment_on_timeout: false,
    };
    state.outstanding.push(outstanding(1));
    state.outstanding.push(outstanding(2));
    assert_eq!(state.available_slots(), 0);
    let oldest = state.pop_oldest_outstanding().expect("one is left");
    assert_eq!(oldest.range.start_height, Height(1));
    state.restore_oldest_outstanding(oldest);
    assert_eq!(state.outstanding.len(), 2);
    assert_eq!(state.outstanding[0].range.start_height, Height(1));
}

#[test]
fn identical_statuses_are_sent_once() {
    let status = |tip: u32| HeaderSyncStatus {
        tip_height: Height(tip),
        tip_hash: hash(1),
        anchor_height: Height(0),
        max_headers_per_response: 100,
        max_inflight_requests: 1,
    };
    let mut state = peer_state(10);
    assert!(state.status_differs_from_last_sent(status(1)));
    state.record_sent_status(status(1));
    assert!(!state.status_differs_from_last_sent(status(1)));
    assert!(state.status_differs_from_last_sent(status(2)));
    state.reset_sent_status();
    assert!(state.status_differs_from_last_sent(status(1)));
}

#[test]
fn serving_slots_and_late_responses_are_counted() {
    let mut state = peer_state(10);
    assert!(state.try_start_serving_headers(1));
    assert!(!state.try_start_serving_headers(1));
    state.finish_serving_headers();
    assert!(state.try_start_serving_headers(1));
    assert!(!state.take_late_covered_response());
    state.late_covered_responses = 1;
    assert!(state.take_late_covered_response());
    assert!(!state.take_late_covered_response());
}

#[test]
fn meters_admit_one_event_per_interval() {
    let mut meter = RateMeter::new(Duration::from_secs(2), START);
    assert!(meter.try_take(START));
    assert!(!meter.try_take(at(1)));
    assert!(meter.try_take(at(2)));
    meter.mark_taken(at(3));
    assert!(!meter.try_take(at(4)));
    assert!(meter.try_take(at(5)));
}

#[test]
fn keepalives_outlast_the_remote_minimum() {
    let meters = HeaderSyncPeerMeters::new(
        Duration::from_secs(1),
        Duration::from_secs(5),
        Duration::from_secs(1),
        START,
    );
    assert_eq!(meters.keepalive.interval, Duration::from_secs(10));
    assert_eq!(meters.keepalive.next_allowed, at(10));
    assert_eq!(meters.unsolicited.next_allowed, START);
}

#[test]
fn seen_hashes_are_forgotten_oldest_first() {
    let mut seen = HeaderHashDedup::new(2);
    assert!(seen.insert(hash(1)));
    assert!(!seen.insert(hash(1)));
    assert!(seen.insert(hash(2)));
    assert!(seen.insert(hash(3)));
    assert!(!seen.contains(&hash(1)));
    assert!(seen.contains(&hash(2)));
    assert!(seen.contains(&hash(3)));
}

#[test]
fn heights_stay_representable() {
    assert_eq!(next_height(Height(1)), Some(Height(2)));
    assert_eq!(next_height(Height(u32::MAX)), None);
    assert_eq!(previous_height(Height(0)), None);
    assert_eq!(previous_height(Height(5)), Some(Height(4)));
    assert_eq!(height_after_count(Height(5), 3), Some(Height(8)));
    assert_eq!(height_after_count(Height(u32::MAX), 1), None);
    assert_eq!(count_between(Height(5), Height(7)), 3);
    assert_eq!(count_between(Height(5), Height(4)), 0);
    assert_eq!(RangePriority::Forward.label(), "forward");
    assert_eq!(RangePriority::Backfill.label(), "backfill");
    assert_eq!(clamp_advertised_range(0, 10), 1);
    assert_eq!(clamp_advertised_range(50, 10), 10);
    assert_eq!(clamp_inflight(3, 10), 3);
}

#[test]
fn ranges_know_where_they_lie() {
    let range = RangeRequest {
        start_height: Height(5),
        count: 3,
        link_hash: hash(1),
        finalized: false,
        want_tree_aux_roots: false,
        priority: RangePriority::Forward,
    };
    assert_eq!(range.end_height(), Height(7));
    assert!(range.is_within(Height(5), Height(7)));
    assert!(!range.is_within(Height(6), Height(7)));
    assert!(!range.is_within(Height(5), Height(6)));
}
