use zakura::header_sync::config::ZakuraHeaderSyncConfig;
use zakura::header_sync::events::{
    ExpectedHeadersResponse, HeaderSyncEvent, HeaderSyncMessage, HeaderSyncMisbehavior,
    HeaderSyncWireError,
};
use zakura::header_sync::ingest::{
    run_inbound, Admit, FrameStart, InboundKind, Ingest, SinkReject,
};
use zakura::header_sync::pipe::{pipe_shape, HsLocal, NodeKind, PipeCommand, PipeCorrelation};
use zakura::header_sync::scheduler::HeaderRequestLimits;
use zakura::time::{Duration, Timestamp};
use zakura::types::{Height, ZakuraPeerId};

type Event = HeaderSyncEvent<u32, &'static str>;
type Message = HeaderSyncMessage<u32, &'static str>;

const START: Timestamp = Timestamp { nanos: 0 };

fn peer() -> ZakuraPeerId {
    ZakuraPeerId::new(vec![5; 32])
}

fn config() -> ZakuraHeaderSyncConfig {
    ZakuraHeaderSyncConfig {
        anchor_height: Some(Height(3)),
        max_advertised_range: 160,
        max_inflight_per_peer: 4,
        request_limits: HeaderRequestLimits {
            hard_max: 160,
            frame_max: 160,
        },
        inbound_get_headers_count_limit: 160,
        seen_hash_capacity: 16,
        request_timeout: Duration::from_secs(10),
        status_refresh_interval: Duration::from_secs(30),
        empty_headers_retry_delay: Duration::from_secs(2),
    }
}

fn expected(start: u32, count: u32) -> ExpectedHeadersResponse {
    ExpectedHeadersResponse::new(Height(start), count, 160).expect("count is valid")
}

fn test_local() -> HsLocal {
    HsLocal::new(
        Height(0),
        Duration::from_secs(1),
        Duration::from_secs(1),
        START,
    )
}

fn record(local: &mut HsLocal, expected: ExpectedHeadersResponse) {
    local.enqueue_command(PipeCommand::RecordExpectedHeaders(expected));
}

/// The oldest expectation, which a response would meet.
fn pop(local: &mut HsLocal) -> Option<ExpectedHeadersResponse> {
    match local.correlate(InboundKind::Headers, START) {
        PipeCorrelation::Decode(expected) => expected,
        _ => None,
    }
}

fn run_one(
    local: &mut HsLocal,
    kind: InboundKind,
    decoded: Result<Message, HeaderSyncWireError>,
    events: &mut Vec<Event>,
    full: bool,
) -> Ingest {
    let start: FrameStart<u32, &'static str> =
        local.begin_frame(&peer(), Admit::Pass, kind, START);
    let (emission, expected) = match start {
        FrameStart::Finished(ingest) => return ingest,
        FrameStart::Report(emission) => (emission, None),
        FrameStart::Decode(expected) => (
            local.ingest_decoded(&config(), &peer(), decoded, START),
            expected,
        ),
    };
    if !full {
        events.push(emission.event);
    }
    run_inbound(local.settle_delivery(expected, emission.verdict, !full))
}

fn malformed() -> Result<Message, HeaderSyncWireError> {
    Err(HeaderSyncWireError::Malformed("empty payload".to_string()))
}

#[test]
fn pipe_ingest_unsolicited_headers_rejects_without_expectation() {
    let mut local = test_local();
    let mut events = Vec::new();

    let flow = run_one(
        &mut local,
        InboundKind::Headers,
        malformed(),
        &mut events,
        false,
    );

    assert!(matches!(flow, Ingest::Reject(SinkReject::Protocol(_))));
    assert!(matches!(
        events.pop(),
        Some(HeaderSyncEvent::PeerMisbehavior {
            reason: HeaderSyncMisbehavior::UnsolicitedHeaders,
            ..
        })
    ));
}

#[test]
fn pipe_ingest_correlated_headers_decodes_against_expectation() {
    let mut local = test_local();
    let mut events = Vec::new();
    local.handle_command(PipeCommand::RecordExpectedHeaders(expected(1, 1)));

    let flow = run_one(
        &mut local,
        InboundKind::Headers,
        malformed(),
        &mut events,
        false,
    );

    assert!(matches!(flow, Ingest::Reject(SinkReject::Protocol(_))));
    assert!(matches!(
        events.pop(),
        Some(HeaderSyncEvent::PeerMisbehavior {
            reason: HeaderSyncMisbehavior::MalformedMessage,
            ..
        })
    ));
}

#[test]
fn local_correlation_queue_drains_commands_in_fifo_order() {
    let mut local = test_local();

    let first = expected(1, 1);
    let second = expected(2, 2);
    record(&mut local, first);
    record(&mut local, second);

    // Nothing is available until the pipe drains its ready commands.
    assert_eq!(pop(&mut local), None);
    local.drain_ready_commands();

    assert_eq!(pop(&mut local), Some(first));
    assert_eq!(pop(&mut local), Some(second));
    assert_eq!(pop(&mut local), None);
}

#[test]
fn pipe_new_block_flood_is_throttled_before_decode() {
    let mut local = test_local();
    let mut events = Vec::new();

    // First flood frame: admitted, decoded, and forwarded to the reactor.
    assert!(matches!(
        run_one(
            &mut local,
            InboundKind::NewBlock,
            Ok(HeaderSyncMessage::NewBlock("one")),
            &mut events,
            false
        ),
        Ingest::Continue
    ));
    assert!(matches!(
        events.pop(),
        Some(HeaderSyncEvent::NewBlockCandidate { block: "one", .. })
    ));

    // Second distinct flood frame inside the interval is dropped before decode.
    assert!(matches!(
        run_one(
            &mut local,
            InboundKind::NewBlock,
            Ok(HeaderSyncMessage::NewBlock("two")),
            &mut events,
            false
        ),
        Ingest::Done
    ));
    assert!(
        events.is_empty(),
        "second NewBlock must be throttled before decode, not forwarded"
    );
}

#[test]
fn pipe_saturated_events_queue_restores_solicited_expectation() {
    let mut local = test_local();
    let mut events = Vec::new();
    let expected = expected(1, 1);
    record(&mut local, expected);
    local.drain_ready_commands();

    assert!(matches!(
        run_one(
            &mut local,
            InboundKind::Headers,
            Ok(HeaderSyncMessage::Headers {
                headers: vec![1],
                body_sizes: vec![0],
            }),
            &mut events,
            true
        ),
        Ingest::Done
    ));

    assert_eq!(
        pop(&mut local),
        Some(expected),
        "a solicited Headers response dropped on reactor queue saturation must restore its expectation"
    );
}

#[test]
fn pipe_shape_matches_runtime() {
    let shape = pipe_shape();

    // (a) The declared shape is internally consistent.
    let named = |id: &str| shape.nodes.iter().any(|node| node.id == id);
    assert!(
        shape
            .edges
            .iter()
            .all(|edge| named(edge.from) && named(edge.to)),
        "edges name only real nodes"
    );

    // (b) The runtime fork is frame-shape based.
    let frame_forks: Vec<&str> = shape
        .edges
        .iter()
        .filter(|edge| edge.from == "guard")
        .map(|edge| edge.on)
        .collect();
    let runtime_forks = ["Headers", "Control"];
    assert_eq!(
        frame_forks.len(),
        runtime_forks.len(),
        "guard has exactly the runtime frame-shape forks"
    );
    for fork in runtime_forks {
        assert!(
            frame_forks.contains(&fork),
            "guard edge missing for runtime fork {fork}"
        );
    }

    // (c) `Headers` responses correlate before decode; all decoded messages
    // terminate at the single forward/emit stage.
    assert!(
        shape
            .edges
            .iter()
            .any(|edge| edge.from == "correlate" && edge.to == "decode"),
        "headers responses correlate before decode"
    );
    assert!(
        shape
            .nodes
            .iter()
            .any(|node| node.id == "emit" && matches!(node.kind, NodeKind::Emit)),
        "the pipe terminates at a single `emit` node"
    );
}

#[test]
fn pipe_routine_preserves_fifo_for_multiple_expectations() {
    let mut local = test_local();

    let first = expected(10, 1);
    let second = expected(20, 2);
    let third = expected(30, 3);
    for expected in [first, second, third] {
        record(&mut local, expected);
    }

    local.drain_ready_commands();
    assert_eq!(pop(&mut local), Some(first));
    assert_eq!(pop(&mut local), Some(second));
    assert_eq!(pop(&mut local), Some(third));
    assert_eq!(pop(&mut local), None);
}

#[test]
fn anchor_defaults_to_genesis() {
    let mut config = config();
    assert_eq!(config.effective_anchor_height(), Height(3));
    config.anchor_height = None;
    assert_eq!(config.effective_anchor_height(), Height(0));
}

#[test]
fn waiting_commands_are_handled_before_a_frame() {
    let mut local = test_local();
    record(&mut local, expected(1, 1));
    let mut events = Vec::new();
    assert!(matches!(
        run_one(
            &mut local,
            InboundKind::Headers,
            Ok(HeaderSyncMessage::Headers {
                headers: vec![1],
                body_sizes: vec![0],
            }),
            &mut events,
            false
        ),
        Ingest::Continue
    ));
    assert!(matches!(
        events.pop(),
        Some(HeaderSyncEvent::PeerHeadersReceived { .. })
    ));

    // Whatever the guard says of the frame.
    record(&mut local, expected(2, 1));
    let start: FrameStart<u32, &'static str> =
        local.begin_frame(&peer(), Admit::Throttle, InboundKind::Headers, START);
    assert!(matches!(start, FrameStart::Finished(Ingest::Done)));
    assert!(local.commands.is_empty());
    assert_eq!(local.expected_headers[0], expected(2, 1));
}
