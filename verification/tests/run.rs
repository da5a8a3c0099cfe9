use zakura::header_sync::config::ZakuraHeaderSyncConfig;
use zakura::header_sync::events::{
    HeaderSyncEvent, HeaderSyncMessage, HeaderSyncMisbehavior, HeaderSyncStatus,
    HeaderSyncWireError,
};
use zakura::header_sync::ingest::{Admit, InboundKind, RejectCause, SinkReject};
use zakura::header_sync::ranges::{RangePriority, RangeRequest};
use zakura::header_sync::routine::{HeaderSyncPeerCommand, HeaderSyncPeerRoutine, HsLocal};
use zakura::header_sync::run::{RoutineRun, RunAction, RunEvent, RunPhase};
use zakura::header_sync::scheduler::{HeaderRequestLimits, RangeScheduler};
use zakura::time::{Duration, Timestamp};
use zakura::types::{BlockHash, Height, ZakuraPeerId};

type Event = RunEvent<u32, &'static str>;
type Action = RunAction<u32, &'static str>;

const START: Timestamp = Timestamp { nanos: 0 };

fn config() -> ZakuraHeaderSyncConfig {
    ZakuraHeaderSyncConfig {
        anchor_height: None,
        max_advertised_range: 160,
        max_inflight_per_peer: 4,
        request_limits: HeaderRequestLimits {
            hard_max: 160,
            frame_max: 160,
        },
        inbound_get_headers_count_limit: 160,
        seen_hash_capacity: 16,
        request_timeout: Duration::from_secs(10),
        status_refresh_interval: Duration::from_secs(30),
        empty_headers_retry_delay: Duration::from_secs(2),
    }
}

fn range() -> RangeRequest {
    RangeRequest {
        start_height: Height(1),
        count: 5,
        link_hash: BlockHash([7; 32]),
        finalized: false,
        want_tree_aux_roots: false,
        priority: RangePriority::Forward,
    }
}

fn status() -> HeaderSyncStatus {
    HeaderSyncStatus {
        tip_height: Height(100),
        tip_hash: BlockHash([0; 32]),
        anchor_height: Height(0),
        max_headers_per_response: 100,
        max_inflight_requests: 1,
    }
}

/// A run and the queue it works on.
struct Peer {
    run: RoutineRun,
    queue: RangeScheduler,
}

impl Peer {
    fn new() -> Self {
        let local = HsLocal::new(
            Height(0),
            Duration::from_secs(1),
            Duration::from_secs(1),
            START,
        );
        let peer = ZakuraPeerId::new(vec![5; 32]);
        let mut queue = RangeScheduler::new();
        queue.ensure_forward(range());
        Peer {
            run: RoutineRun::new(HeaderSyncPeerRoutine::new(peer, local, 3)),
            queue,
        }
    }

    fn on(&mut self, event: Event) -> Action {
        self.run.on_event(&mut self.queue, &config(), event, START)
    }

    fn frame(&mut self, kind: InboundKind) -> Action {
        self.on(RunEvent::Frame {
            guarded: Admit::Pass,
            kind,
        })
    }

    /// Takes the peer's status in.
    fn advertised(mut self) -> Self {
        assert!(matches!(
            self.frame(InboundKind::Control),
            RunAction::Decode(None)
        ));
        assert!(matches!(
            self.on(RunEvent::Decoded(Ok(HeaderSyncMessage::Status(status())))),
            RunAction::Deliver(HeaderSyncEvent::PeerStatusUpdated { .. })
        ));
        assert!(matches!(
            self.on(RunEvent::Delivered(true)),
            RunAction::Wait
        ));
        self
    }

    /// Pulls the range and sends its request.
    fn requested(self) -> Self {
        let mut peer = self.advertised();
        assert!(matches!(
            peer.on(RunEvent::Woken),
            RunAction::Request {
                start_height: Height(1),
                count: 5
            }
        ));
        assert!(matches!(
            peer.on(RunEvent::Sent(true)),
            RunAction::Announce(HeaderSyncEvent::PeerWorkAssigned {
                generation: 3,
                count: 5,
                ..
            })
        ));
        assert_eq!(peer.run.routine.local.in_flight, Some(range()));
        peer
    }

    fn headers(&mut self, count: usize, delivered: bool) -> Action {
        assert!(matches!(
            self.frame(InboundKind::Headers),
            RunAction::Decode(Some(_))
        ));
        assert!(matches!(
            self.on(RunEvent::Decoded(Ok(HeaderSyncMessage::Headers {
                headers: vec![1; count],
                body_sizes: vec![0; count],
            }))),
            RunAction::Deliver(HeaderSyncEvent::PeerHeadersReceived { .. })
        ));
        self.on(RunEvent::Delivered(delivered))
    }

    fn assert_range_is_back(&self) {
        assert!(matches!(self.run.phase, RunPhase::Ended));
        assert!(self.run.routine.local.in_flight.is_none());
        assert!(!self.queue.is_assigned(range()));
        assert_eq!(self.queue.queued(RangePriority::Forward)[0], range());
    }
}

#[test]
fn a_closed_run_ends_well_and_gives_its_range_back() {
    let mut peer = Peer::new().requested();
    // The reactor's queue stays full; the peer is not at fault.
    for _ in 0..3 {
        assert!(matches!(peer.headers(1, false), RunAction::Wait));
        assert_eq!(peer.run.routine.local.in_flight, Some(range()));
    }
    assert!(matches!(
        peer.on(RunEvent::Closed),
        RunAction::Stop(Ok(()))
    ));
    peer.assert_range_is_back();
    assert!(matches!(peer.on(RunEvent::Woken), RunAction::Wait));
}

#[test]
fn a_run_that_is_closed_before_its_request_is_sent_gives_its_work_back() {
    let mut peer = Peer::new().advertised();
    assert!(matches!(
        peer.on(RunEvent::Woken),
        RunAction::Request { .. }
    ));
    assert!(matches!(
        peer.on(RunEvent::Closed),
        RunAction::Stop(Ok(()))
    ));
    peer.assert_range_is_back();
}

#[test]
fn a_violation_ends_the_run_with_a_protocol_reject() {
    let mut peer = Peer::new().requested();
    assert!(matches!(
        peer.frame(InboundKind::Headers),
        RunAction::Decode(Some(_))
    ));
    let error = HeaderSyncWireError::Malformed("empty payload".to_string());
    assert!(matches!(
        peer.on(RunEvent::Decoded(Err(error))),
        RunAction::Deliver(HeaderSyncEvent::PeerMisbehavior {
            reason: HeaderSyncMisbehavior::MalformedMessage,
            ..
        })
    ));
    assert!(matches!(
        peer.on(RunEvent::Delivered(false)),
        RunAction::Stop(Err(SinkReject::Protocol(RejectCause::Wire(_))))
    ));
    peer.assert_range_is_back();

    let mut peer = Peer::new();
    assert!(matches!(
        peer.frame(InboundKind::Headers),
        RunAction::Deliver(HeaderSyncEvent::PeerMisbehavior {
            reason: HeaderSyncMisbehavior::UnsolicitedHeaders,
            ..
        })
    ));
    assert!(matches!(
        peer.on(RunEvent::Delivered(true)),
        RunAction::Stop(Err(SinkReject::Protocol(_)))
    ));

    let mut peer = Peer::new();
    assert!(matches!(
        peer.on(RunEvent::Frame {
            guarded: Admit::Reject("oversize".to_string()),
            kind: InboundKind::Control,
        }),
        RunAction::Stop(Err(SinkReject::Protocol(RejectCause::Guard(_))))
    ));
}

#[test]
fn responses_lead_to_the_next_pull_or_to_a_rest() {
    let mut peer = Peer::new().requested();
    // The range is still queued for others, and this peer holds it: nothing to pull.
    assert!(matches!(peer.headers(5, true), RunAction::Wait));
    assert!(peer.run.routine.local.in_flight.is_none());

    let mut peer = Peer::new().requested();
    peer.queue.ensure_forward(RangeRequest {
        start_height: Height(6),
        ..range()
    });
    assert!(matches!(
        peer.headers(5, true),
        RunAction::Request {
            start_height: Height(6),
            count: 5
        }
    ));

    let mut peer = Peer::new().requested();
    assert!(matches!(peer.headers(0, true), RunAction::WakeOthers));
    assert!(!peer.queue.is_assigned(range()));
    assert!(matches!(peer.on(RunEvent::Woken), RunAction::Wait));
}

#[test]
fn work_whose_request_fails_goes_back_and_others_are_woken() {
    let mut peer = Peer::new().advertised();
    assert!(matches!(
        peer.on(RunEvent::Woken),
        RunAction::Request { .. }
    ));
    assert!(matches!(
        peer.on(RunEvent::Sent(false)),
        RunAction::WakeOthers
    ));
    assert!(!peer.queue.is_assigned(range()));
    assert!(peer.run.routine.local.in_flight.is_none());
}

#[test]
fn inputs_of_the_reactor_are_passed_on() {
    let mut peer = Peer::new().requested();
    match peer.on(RunEvent::Status(status())) {
        RunAction::SendStatus(sent) => assert_eq!(sent, status()),
        other => panic!("expected a status to send, got {other:?}"),
    }
    assert!(matches!(
        peer.on(RunEvent::Command(HeaderSyncPeerCommand::ForwardNewBlock("block"))),
        RunAction::ForwardNewBlock("block")
    ));
    assert!(matches!(
        peer.on(RunEvent::Command(HeaderSyncPeerCommand::SendHeaders {
            headers: vec![1],
            body_sizes: vec![2],
        })),
        RunAction::SendHeaders { .. }
    ));
    // A drop of this session's request frees the slot; a late response is absorbed.
    peer.on(RunEvent::Command(HeaderSyncPeerCommand::DropExpectation {
        generation: 3,
        start_height: Height(1),
        count: 5,
    }));
    assert!(peer.run.routine.local.in_flight.is_none());
    assert!(matches!(peer.frame(InboundKind::Headers), RunAction::Wait));
}
