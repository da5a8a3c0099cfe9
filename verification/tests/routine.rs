use zakura::header_sync::config::ZakuraHeaderSyncConfig;
use zakura::header_sync::events::{
    ExpectedHeadersResponse, HeaderSyncEvent, HeaderSyncMessage, HeaderSyncMisbehavior,
    HeaderSyncStatus, HeaderSyncWireError,
};
use zakura::header_sync::ingest::{
    run_inbound, Admit, Emission, FrameStart, HeaderSyncWireTypes, InboundKind, Ingest,
    RejectCause, SinkReject, Verdict,
};
use zakura::header_sync::ranges::{RangePriority, RangeRequest};
use zakura::header_sync::routine::{
    CommandAction, Correlation, FrameFollowUp, HeaderSyncPeerCommand,
    HeaderSyncPeerRoutine, HsLocal,
};
use zakura::header_sync::scheduler::{HeaderRequestLimits, RangeScheduler};
use zakura::time::{Duration, Timestamp};
use zakura::types::{BlockHash, Height, ZakuraPeerId};

type Event = HeaderSyncEvent<u32, &'static str>;
type Message = HeaderSyncMessage<u32, &'static str>;
type Command = HeaderSyncPeerCommand<u32, &'static str>;

const START: Timestamp = Timestamp { nanos: 0 };

fn peer() -> ZakuraPeerId {
    ZakuraPeerId::new(vec![5; 32])
}

fn config() -> ZakuraHeaderSyncConfig {
    ZakuraHeaderSyncConfig {
        anchor_height: None,
        max_advertised_range: 160,
        max_inflight_per_peer: 4,
        request_limits: HeaderRequestLimits {
            hard_max: 160,
            frame_max: 160,
        },
        inbound_get_headers_count_limit: 160,
        seen_hash_capacity: 16,
        request_timeout: Duration::from_secs(10),
        status_refresh_interval: Duration::from_secs(30),
        empty_headers_retry_delay: Duration::from_secs(2),
    }
}

fn expected(start: u32, count: u32) -> ExpectedHeadersResponse {
    ExpectedHeadersResponse::new(Height(start), count, 160).expect("count is valid")
}

fn test_local() -> HsLocal {
    HsLocal::new(
        Height(0),
        Duration::from_secs(1),
        Duration::from_secs(1),
        START,
    )
}

fn routine(generation: u64) -> HeaderSyncPeerRoutine {
    HeaderSyncPeerRoutine::new(peer(), test_local(), generation)
}

/// Runs one frame. What it decodes to is given, and events go to `events` unless the
/// queue is full.
fn run_one(
    local: &mut HsLocal,
    kind: InboundKind,
    decoded: Result<Message, HeaderSyncWireError>,
    events: &mut Vec<Event>,
    full: bool,
    now: Timestamp,
) -> Ingest {
    let (emission, expected): (Emission<u32, &'static str>, _) = match local.correlate(kind, now) {
        Correlation::Throttled | Correlation::LateCovered => return Ingest::Done,
        Correlation::Unsolicited => (local.unsolicited(&peer()), None),
        Correlation::Decode(expected) => (
            local.ingest_decoded(&config(), &peer(), decoded, now),
            expected,
        ),
    };
    if !full {
        events.push(emission.event);
    }
    run_inbound(local.settle_delivery(expected, emission.verdict, !full))
}

fn malformed() -> Result<Message, HeaderSyncWireError> {
    Err(HeaderSyncWireError::Malformed("empty payload".to_string()))
}

fn one_header() -> Result<Message, HeaderSyncWireError> {
    Ok(HeaderSyncMessage::Headers {
        headers: vec![1],
        body_sizes: vec![0],
    })
}

#[test]
fn routine_ingest_unsolicited_headers_rejects_without_expectation() {
    let mut local = test_local();
    let mut events = Vec::new();

    let flow = run_one(
        &mut local,
        InboundKind::Headers,
        malformed(),
        &mut events,
        false,
        START,
    );

    assert!(matches!(
        flow,
        Ingest::Reject(SinkReject::Protocol(RejectCause::Wire(
            HeaderSyncWireError::UnsolicitedHeaders
        )))
    ));
    assert!(matches!(
        events.pop(),
        Some(HeaderSyncEvent::PeerMisbehavior {
            reason: HeaderSyncMisbehavior::UnsolicitedHeaders,
            ..
        })
    ));
}

#[test]
fn routine_ingest_correlated_headers_decodes_against_expectation() {
    let mut local = test_local();
    let mut events = Vec::new();
    local.record_expected(expected(1, 1));

    let flow = run_one(
        &mut local,
        InboundKind::Headers,
        malformed(),
        &mut events,
        false,
        START,
    );

    assert!(matches!(flow, Ingest::Reject(SinkReject::Protocol(_))));
    assert!(matches!(
        events.pop(),
        Some(HeaderSyncEvent::PeerMisbehavior {
            reason: HeaderSyncMisbehavior::MalformedMessage,
            ..
        })
    ));
}

#[test]
fn local_correlation_queue_records_in_fifo_order() {
    let mut local = test_local();

    let first = expected(1, 1);
    let second = expected(2, 2);
    local.record_expected(first);
    local.record_expected(second);

    assert_eq!(local.pop_expected_headers_response(), Some(first));
    assert_eq!(local.pop_expected_headers_response(), Some(second));
    assert_eq!(local.pop_expected_headers_response(), None);
}

#[test]
fn routine_new_block_flood_is_throttled_before_decode() {
    let mut local = test_local();
    let mut events = Vec::new();

    // First flood frame: admitted, decoded, and forwarded to the reactor.
    assert!(matches!(
        run_one(
            &mut local,
            InboundKind::NewBlock,
            Ok(HeaderSyncMessage::NewBlock("one")),
            &mut events,
            false,
            START
        ),
        Ingest::Continue
    ));
    assert!(matches!(
        events.pop(),
        Some(HeaderSyncEvent::NewBlockCandidate { block: "one", .. })
    ));

    // Second distinct flood frame inside the interval is dropped before
    // decode: the peer is kept and nothing reaches the reactor.
    assert!(matches!(
        run_one(
            &mut local,
            InboundKind::NewBlock,
            Ok(HeaderSyncMessage::NewBlock("two")),
            &mut events,
            false,
            START
        ),
        Ingest::Done
    ));
    assert!(
        events.is_empty(),
        "second NewBlock must be throttled before decode, not forwarded"
    );
}

#[test]
fn routine_saturated_events_queue_restores_solicited_expectation() {
    let mut local = test_local();
    let mut events = Vec::new();
    let expected = expected(1, 1);
    local.record_expected(expected);

    // The decoded response cannot be delivered (events queue is full); the
    // routine goes on.
    assert!(matches!(
        run_one(
            &mut local,
            InboundKind::Headers,
            one_header(),
            &mut events,
            true,
            START
        ),
        Ingest::Done
    ));

    // The popped expectation must be restored so the still-outstanding range
    // stays correlated.
    assert_eq!(
        local.pop_expected_headers_response(),
        Some(expected),
        "a solicited Headers response dropped on reactor queue saturation must restore its expectation"
    );
}

fn status(tip: u32, anchor: u32) -> HeaderSyncStatus {
    HeaderSyncStatus {
        tip_height: Height(tip),
        tip_hash: BlockHash([0; 32]),
        anchor_height: Height(anchor),
        max_headers_per_response: 100,
        max_inflight_requests: 1,
    }
}

#[test]
fn correlates_headers_before_control() {
    let mut events = Vec::new();

    // (a) `Headers` correlates before decode: with no expectation it is
    // unsolicited and protocol-rejected.
    let mut headers_local = test_local();
    assert!(matches!(
        run_one(
            &mut headers_local,
            InboundKind::Headers,
            malformed(),
            &mut events,
            false,
            START
        ),
        Ingest::Reject(SinkReject::Protocol(_))
    ));
    assert!(matches!(
        events.pop(),
        Some(HeaderSyncEvent::PeerMisbehavior {
            reason: HeaderSyncMisbehavior::UnsolicitedHeaders,
            ..
        })
    ));

    // (b) A Control message (`Status`) needs no correlation and is forwarded.
    let mut control_local = test_local();
    assert!(matches!(
        run_one(
            &mut control_local,
            InboundKind::Control,
            Ok(HeaderSyncMessage::Status(status(0, 0))),
            &mut events,
            false,
            START
        ),
        Ingest::Continue
    ));
    assert!(matches!(
        events.pop(),
        Some(HeaderSyncEvent::PeerStatusUpdated { .. })
    ));
}

#[test]
fn routine_routine_preserves_fifo_for_multiple_expectations() {
    let mut local = test_local();

    let first = expected(10, 1);
    let second = expected(20, 2);
    let third = expected(30, 3);
    for expected in [first, second, third] {
        local.record_expected(expected);
    }

    assert_eq!(local.pop_expected_headers_response(), Some(first));
    assert_eq!(local.pop_expected_headers_response(), Some(second));
    assert_eq!(local.pop_expected_headers_response(), Some(third));
    assert_eq!(local.pop_expected_headers_response(), None);
}

fn forward_range(start: u32, count: u32) -> RangeRequest {
    RangeRequest {
        start_height: Height(start),
        count,
        link_hash: BlockHash([7; 32]),
        finalized: false,
        want_tree_aux_roots: false,
        priority: RangePriority::Forward,
    }
}

/// A routine whose peer advertised its caps.
fn pulling_routine(generation: u64) -> HeaderSyncPeerRoutine {
    let mut routine = routine(generation);
    routine.local.gate.received_status = true;
    routine.local.gate.advertised_tip = Height(100);
    routine.local.advertised_max_headers_per_response = Some(100);
    routine
}

/// Pulls work and sends its request.
fn try_pull(routine: &mut HeaderSyncPeerRoutine, queue: &mut RangeScheduler) -> Option<Event> {
    let work = routine.begin_pull(queue, &config(), START)?;
    routine.finish_pull(queue, &config(), work, true)
}

#[test]
fn routine_pulls_work_sends_get_headers_and_records_expectation() {
    let mut queue = RangeScheduler::new();
    queue.ensure_forward(forward_range(1, 5));
    let mut routine = pulling_routine(9);

    let event = try_pull(&mut routine, &mut queue);

    assert_eq!(
        routine.local.expected_headers.front(),
        Some(&expected(1, 5)),
        "the expectation is recorded synchronously at pull time"
    );
    assert!(routine.local.in_flight.is_some());
    match event {
        Some(HeaderSyncEvent::PeerWorkAssigned {
            start_height,
            count,
            generation,
            anchor_hash,
            finalized,
            forward,
            ..
        }) => {
            assert_eq!(start_height, Height(1));
            assert_eq!(count, 5);
            assert_eq!(generation, 9);
            assert_eq!(anchor_hash, BlockHash([7; 32]));
            assert!(!finalized);
            assert!(forward);
        }
        other => panic!("expected PeerWorkAssigned, got {other:?}"),
    }
    // Nothing else is pulled while the request is in flight.
    assert!(routine.begin_pull(&mut queue, &config(), START).is_none());
}

#[test]
fn dropping_routine_returns_in_flight_work() {
    let mut queue = RangeScheduler::new();
    queue.ensure_forward(forward_range(1, 5));
    let mut routine = pulling_routine(1);
    try_pull(&mut routine, &mut queue);
    assert!(routine.local.in_flight.is_some());
    // The range is assigned to this peer while in flight.
    assert!(queue.is_assigned(forward_range(1, 5)));

    routine.teardown(&mut queue);

    // After teardown the assignment is cleared and the range is re-queued.
    assert!(
        !queue.is_assigned(forward_range(1, 5)),
        "teardown clears the in-flight assignment"
    );
    assert!(
        queue
            .queued(RangePriority::Forward)
            .iter()
            .any(|range| range.start_height == Height(1)),
        "teardown re-queues the in-flight range so it is never stranded"
    );
}

#[test]
fn stale_generation_teardown_does_not_erase_new_session_assignment() {
    let mut queue = RangeScheduler::new();
    queue.ensure_forward(forward_range(1, 5));

    let mut old_routine = pulling_routine(1);
    try_pull(&mut old_routine, &mut queue);
    // Simulate reconnect: forget the old peer's assignment, then the new session
    // takes the range.
    queue.forget_peer(&peer());
    let mut new_routine = pulling_routine(2);
    try_pull(&mut new_routine, &mut queue);
    assert!(new_routine.local.in_flight.is_some());

    // The OLD routine now tears down, returning under generation 1. The
    // new session (generation 2) still holds the range.
    old_routine.teardown(&mut queue);

    assert_eq!(
        queue.holder_generation(forward_range(1, 5), &peer()),
        Some(2),
        "an old session's teardown must not erase the new session's live assignment"
    );
}

/// Seeds the expectation and slot that a pull would have recorded.
fn seed_expected(routine: &mut HeaderSyncPeerRoutine, start: u32, count: u32) {
    routine.local.record_expected(expected(start, count));
    routine.local.in_flight = Some(forward_range(start, count));
}

#[test]
fn routine_applies_drop_expectation_reset_command() {
    let mut routine = routine(0);
    seed_expected(&mut routine, 1, 5);
    assert!(routine.local.in_flight.is_some());
    assert_eq!(routine.local.expected_headers.len(), 1);

    routine.handle_command(Command::DropExpectation {
        generation: 0,
        start_height: Height(1),
        count: 5,
    });

    assert!(
        routine.local.in_flight.is_none(),
        "the reset freed the outbound slot"
    );
    assert!(
        routine.local.expected_headers.is_empty(),
        "the reset popped the matching expectation"
    );
    assert_eq!(
        routine.local.late_covered_tolerance, 1,
        "the reset credits a late-covered tolerance so a late response is absorbed"
    );
}

#[test]
fn routine_ignores_drop_expectation_for_other_generation() {
    let mut routine = routine(0);
    seed_expected(&mut routine, 1, 5);

    // The routine's generation is 0; a command for generation 9 is dropped.
    let action = routine.handle_command(Command::DropExpectation {
        generation: 9,
        start_height: Height(1),
        count: 5,
    });

    assert!(matches!(action, CommandAction::Idle));
    assert!(
        routine.local.in_flight.is_some(),
        "a generation-stale reset must not free the live slot"
    );
    assert_eq!(
        routine.local.expected_headers.len(),
        1,
        "a generation-stale reset must not pop the live expectation"
    );
}

#[test]
fn late_responses_of_dropped_requests_are_absorbed() {
    let mut routine = routine(0);
    seed_expected(&mut routine, 1, 5);
    routine.handle_command(Command::DropExpectation {
        generation: 0,
        start_height: Height(1),
        count: 5,
    });
    let mut events = Vec::new();
    assert!(matches!(
        run_one(
            &mut routine.local,
            InboundKind::Headers,
            one_header(),
            &mut events,
            false,
            START
        ),
        Ingest::Done
    ));
    assert!(events.is_empty());
    // The next one was not asked for.
    assert!(matches!(
        run_one(
            &mut routine.local,
            InboundKind::Headers,
            one_header(),
            &mut events,
            false,
            START
        ),
        Ingest::Reject(SinkReject::Protocol(_))
    ));
}

#[test]
fn commands_are_turned_into_actions() {
    let mut routine = routine(0);
    assert!(matches!(
        routine.handle_command(Command::Wake),
        CommandAction::Pull
    ));
    assert!(matches!(
        routine.handle_command(Command::ForwardNewBlock("block")),
        CommandAction::ForwardNewBlock("block")
    ));
    match routine.handle_command(Command::SendHeaders {
        headers: vec![1, 2],
        body_sizes: vec![3, 4],
    }) {
        CommandAction::SendHeaders {
            headers,
            body_sizes,
        } => {
            assert_eq!(headers, vec![1, 2]);
            assert_eq!(body_sizes, vec![3, 4]);
        }
        other => panic!("expected headers to send, got {other:?}"),
    }
}

#[test]
fn filled_responses_free_the_slot_and_empty_ones_rest() {
    let mut queue = RangeScheduler::new();
    queue.ensure_forward(forward_range(1, 5));
    let mut routine = pulling_routine(1);
    try_pull(&mut routine, &mut queue);
    let mut events = Vec::new();
    let ingest = run_one(
        &mut routine.local,
        InboundKind::Headers,
        one_header(),
        &mut events,
        false,
        START,
    );
    assert!(matches!(
        routine.after_frame(ingest, &mut queue, &config(), START),
        FrameFollowUp::Pull
    ));
    assert!(routine.local.in_flight.is_none());

    let mut queue = RangeScheduler::new();
    queue.ensure_forward(forward_range(1, 5));
    let mut routine = pulling_routine(1);
    try_pull(&mut routine, &mut queue);
    let ingest = run_one(
        &mut routine.local,
        InboundKind::Headers,
        Ok(HeaderSyncMessage::Headers {
            headers: Vec::new(),
            body_sizes: Vec::new(),
        }),
        &mut events,
        false,
        START,
    );
    assert!(matches!(
        routine.after_frame(ingest, &mut queue, &config(), START),
        FrameFollowUp::WakeOthers
    ));
    assert!(!queue.is_assigned(forward_range(1, 5)));
    assert!(routine.begin_pull(&mut queue, &config(), START).is_none());
    let rested = Timestamp {
        nanos: 2_000_000_000,
    };
    assert!(routine.begin_pull(&mut queue, &config(), rested).is_some());
}

#[test]
fn work_whose_request_was_not_sent_goes_back() {
    let mut queue = RangeScheduler::new();
    queue.ensure_forward(forward_range(1, 5));
    let mut routine = pulling_routine(1);
    let work = routine
        .begin_pull(&mut queue, &config(), START)
        .expect("there is work");
    let event: Option<Event> = routine.finish_pull(&mut queue, &config(), work, false);
    assert!(event.is_none());
    assert!(!queue.is_assigned(forward_range(1, 5)));
    assert!(routine.local.expected_headers.is_empty());
    assert!(routine.begin_pull(&mut queue, &config(), START).is_some());
}

#[test]
fn nothing_is_pulled_before_a_status() {
    let mut queue = RangeScheduler::new();
    queue.ensure_forward(forward_range(1, 5));
    assert!(routine(1)
        .begin_pull(&mut queue, &config(), START)
        .is_none());
}

#[test]
fn guard_verdicts_come_before_decoding() {
    let mut routine = routine(0);
    let passed: FrameStart<u32, &'static str> =
        routine.begin_frame(Admit::Pass, InboundKind::Control, START);
    assert!(matches!(passed, FrameStart::Decode(None)));
    let throttled: FrameStart<u32, &'static str> =
        routine.begin_frame(Admit::Throttle, InboundKind::Headers, START);
    assert!(matches!(throttled, FrameStart::Finished(Ingest::Done)));
    let rejected: FrameStart<u32, &'static str> = routine.begin_frame(
        Admit::Reject("oversize".to_string()),
        InboundKind::Headers,
        START,
    );
    match rejected {
        FrameStart::Finished(Ingest::Reject(SinkReject::Protocol(RejectCause::Guard(reason)))) => {
            assert_eq!(reason, "oversize");
        }
        other => panic!("expected a reject, got {other:?}"),
    }
}

#[test]
fn unsolicited_responses_are_reported_without_decoding() {
    let mut routine = routine(0);
    let start: FrameStart<u32, &'static str> =
        routine.begin_frame(Admit::Pass, InboundKind::Headers, START);
    let FrameStart::Report(emission) = start else {
        panic!("expected a report");
    };
    assert!(matches!(
        emission.event,
        HeaderSyncEvent::PeerMisbehavior {
            reason: HeaderSyncMisbehavior::UnsolicitedHeaders,
            ..
        }
    ));
    assert!(matches!(
        routine.finish_frame(None, emission.verdict, false),
        Ingest::Reject(SinkReject::Protocol(_))
    ));
}

#[test]
fn full_queue_finishes_the_frame_and_keeps_the_expectation() {
    let mut routine = routine(0);
    let expected = ExpectedHeadersResponse {
        start_height: Height(1),
        count: 5,
    };
    routine.local.record_expected(expected);
    let start: FrameStart<u32, &'static str> =
        routine.begin_frame(Admit::Pass, InboundKind::Headers, START);
    let FrameStart::Decode(taken) = start else {
        panic!("expected a decode");
    };
    assert_eq!(taken, Some(expected));
    assert!(routine.local.expected_headers.is_empty());
    assert!(matches!(
        routine.finish_frame(taken, Verdict::Forward, false),
        Ingest::Done
    ));
    assert_eq!(routine.local.expected_headers.len(), 1);
    assert_eq!(routine.local.expected_headers[0], expected);
}

#[test]
fn rejected_frames_stop_the_routine() {
    let mut queue = RangeScheduler::new();
    let mut routine = routine(0);
    assert!(matches!(
        routine.after_frame(
            Ingest::Reject(SinkReject::Protocol(RejectCause::Wire(
                HeaderSyncWireError::UnsolicitedHeaders
            ))),
            &mut queue,
            &config(),
            START
        ),
        FrameFollowUp::Stop(SinkReject::Protocol(_))
    ));
}

#[test]
fn semantic_violations_are_recorded_without_disconnecting() {
    let mut local = test_local();
    let mut events = Vec::new();
    for (message, reason) in [
        (
            HeaderSyncMessage::GetHeaders {
                start_height: Height(1),
                count: 1,
            },
            HeaderSyncMisbehavior::GetHeadersSpam,
        ),
        (
            HeaderSyncMessage::Status(status(1, 2)),
            HeaderSyncMisbehavior::InvalidStatus,
        ),
    ] {
        assert!(matches!(
            run_one(
                &mut local,
                InboundKind::Control,
                Ok(message),
                &mut events,
                false,
                START
            ),
            Ingest::Continue
        ));
        match events.pop() {
            Some(HeaderSyncEvent::PeerMisbehavior { reason: got, .. }) => assert_eq!(got, reason),
            other => panic!("expected a recorded violation, got {other:?}"),
        }
    }

    // A status that does not advance the tip needs a token.
    for (tip, accepted) in [(5, true), (5, false), (6, true)] {
        run_one(
            &mut local,
            InboundKind::Control,
            Ok(HeaderSyncMessage::Status(status(tip, 0))),
            &mut events,
            false,
            START,
        );
        match events.pop() {
            Some(HeaderSyncEvent::PeerStatusUpdated { status, .. }) => {
                assert!(accepted);
                assert_eq!(status.tip_height, Height(tip));
            }
            Some(HeaderSyncEvent::PeerMisbehavior { reason, .. }) => {
                assert!(!accepted);
                assert_eq!(reason, HeaderSyncMisbehavior::StatusSpam);
            }
            other => panic!("expected a status event, got {other:?}"),
        }
    }
    assert_eq!(local.advertised_max_headers_per_response, Some(100));

    run_one(
        &mut local,
        InboundKind::Control,
        Ok(HeaderSyncMessage::GetHeaders {
            start_height: Height(1),
            count: 161,
        }),
        &mut events,
        false,
        START,
    );
    assert!(matches!(
        events.pop(),
        Some(HeaderSyncEvent::PeerMisbehavior {
            reason: HeaderSyncMisbehavior::GetHeadersTooLong,
            ..
        })
    ));
    run_one(
        &mut local,
        InboundKind::Control,
        Ok(HeaderSyncMessage::GetHeaders {
            start_height: Height(1),
            count: 160,
        }),
        &mut events,
        false,
        START,
    );
    assert!(matches!(
        events.pop(),
        Some(HeaderSyncEvent::InboundGetHeadersRequested { count: 160, .. })
    ));
}

#[test]
fn frames_are_told_apart_by_their_type() {
    let types = HeaderSyncWireTypes {
        headers: 3,
        new_block: 4,
    };
    assert_eq!(types.classify(3), InboundKind::Headers);
    assert_eq!(types.classify(4), InboundKind::NewBlock);
    assert_eq!(types.classify(259), InboundKind::Control);
}

#[test]
fn expected_responses_are_bounded() {
    assert!(matches!(
        ExpectedHeadersResponse::new(Height(1), 0, 160),
        Err(HeaderSyncWireError::InvalidGetHeadersCount { count: 0, max: 160 })
    ));
    assert!(ExpectedHeadersResponse::new(Height(1), 161, 160).is_err());
    assert!(ExpectedHeadersResponse::new(Height(1), 160, 160).is_ok());
}

#[test]
fn a_drop_of_another_request_changes_nothing() {
    let mut routine = routine(0);
    seed_expected(&mut routine, 1, 3);
    routine.local.empty_retry_until = Some(START);

    routine.local.apply_drop_expectation(Height(1), 5);

    assert_eq!(routine.local.expected_headers.len(), 1);
    assert_eq!(routine.local.expected_headers[0], expected(1, 3));
    assert_eq!(routine.local.in_flight, Some(forward_range(1, 3)));
    assert_eq!(routine.local.empty_retry_until, Some(START));
    assert_eq!(routine.local.late_covered_tolerance, 0);
}

#[test]
fn an_undelivered_response_keeps_its_slot() {
    for response in [
        one_header(),
        Ok(HeaderSyncMessage::Headers {
            headers: Vec::new(),
            body_sizes: Vec::new(),
        }),
    ] {
        let mut queue = RangeScheduler::new();
        queue.ensure_forward(forward_range(1, 5));
        let mut routine = pulling_routine(1);
        try_pull(&mut routine, &mut queue);
        let mut events = Vec::new();
        let ingest = run_one(
            &mut routine.local,
            InboundKind::Headers,
            response,
            &mut events,
            true,
            START,
        );
        assert!(routine.local.last_headers_outcome.is_none());
        assert!(matches!(
            routine.after_frame(ingest, &mut queue, &config(), START),
            FrameFollowUp::Wait
        ));
        assert_eq!(routine.local.in_flight, Some(forward_range(1, 5)));
        assert_eq!(routine.local.expected_headers.len(), 1);
        assert_eq!(routine.local.expected_headers[0], expected(1, 5));
        assert!(queue.is_assigned(forward_range(1, 5)));
        assert!(routine.begin_pull(&mut queue, &config(), START).is_none());
    }
}
