use zakura::connection::{
    accept_connection, after_responder_handshake, after_response_write, after_sink_request,
    encode_response_frame, freshness_reaper, inbound_message_sink, pending_handshake_close, request_stream_start,
    request_stream_worker, serve_connection, stream_worker, AcceptStep, CloseFrame, CloseReason,
    ServeAction, ServeEvent, ServePhase, SinkStep, WorkerStep,
};
use zakura::error::{ResourceCap, ZakuraHandlerError};
use zakura::limits::{ZakuraConnectionLimits, ZakuraLimits, ZakuraLocalLimits};
use zakura::rate::RateBucket;
use zakura::sink::{DropInboundSink, InboundSink, InboundSinkReject};
use zakura::time::{Duration, Timestamp};
use zakura::types::{Frame, ZakuraPeerId};

fn limits() -> ZakuraConnectionLimits {
    ZakuraConnectionLimits {
        max_frame_bytes: 12,
        max_message_bytes: 8,
        max_open_streams: 16,
        max_inbound_queue_depth: 16,
        idle_timeout: Duration::from_secs(5),
        prelude_timeout: Duration::from_secs(1),
        control_timeout: Duration::from_secs(1),
        stream_open_rate_per_second: 16,
        message_rate_per_second: 128,
    }
}

fn frame(len: usize) -> Frame {
    Frame {
        message_type: 1,
        flags: 0,
        payload: vec![0; len],
    }
}

const NOW: Timestamp = Timestamp { nanos: 0 };

fn stop(reset: Option<u32>, cancel_connection: bool) -> WorkerStep {
    WorkerStep::Stop {
        reset,
        cancel_connection,
    }
}

#[test]
fn a_served_connection_drains_and_deregisters_once() {
    let mut phase = ServePhase::Serving;
    assert_eq!(
        serve_connection(&mut phase, ServeEvent::StreamAccepted),
        ServeAction::AdmitStream
    );
    assert_eq!(
        serve_connection(&mut phase, ServeEvent::OutboundFrame),
        ServeAction::WriteFrame
    );
    assert_eq!(
        serve_connection(&mut phase, ServeEvent::OutboundRequest),
        ServeAction::RunRequest
    );
    assert_eq!(
        serve_connection(&mut phase, ServeEvent::WorkerJoined),
        ServeAction::Wait
    );
    assert_eq!(
        serve_connection(&mut phase, ServeEvent::IdleExpired),
        ServeAction::Drain {
            close: Some(CloseFrame {
                code: 0,
                reason: CloseReason::Idle
            })
        }
    );
    assert_eq!(phase, ServePhase::Draining);
    assert_eq!(
        serve_connection(&mut phase, ServeEvent::WorkerJoined),
        ServeAction::Wait
    );
    assert_eq!(
        serve_connection(&mut phase, ServeEvent::Drained),
        ServeAction::Deregister
    );
    assert_eq!(
        serve_connection(&mut phase, ServeEvent::Drained),
        ServeAction::Wait
    );
    assert_eq!(phase, ServePhase::Finished);
}

#[test]
fn cancelled_and_closed_connections_drain_without_a_close() {
    for event in [
        ServeEvent::Cancelled,
        ServeEvent::AcceptFailed,
        ServeEvent::OutboundClosed,
    ] {
        let mut phase = ServePhase::Serving;
        assert_eq!(
            serve_connection(&mut phase, event),
            ServeAction::Drain { close: None }
        );
        assert_eq!(phase, ServePhase::Draining);
    }
}

#[test]
fn inbound_connections_need_a_place_and_a_handshake() {
    assert_eq!(accept_connection(true), AcceptStep::Handshake);
    assert_eq!(
        accept_connection(false),
        AcceptStep::Close(CloseFrame {
            code: 1,
            reason: CloseReason::Admission
        })
    );
    assert_eq!(
        pending_handshake_close(),
        CloseFrame {
            code: 1,
            reason: CloseReason::PendingHandshake
        }
    );
    let local = ZakuraLocalLimits {
        max_connections: 4,
        max_pending_handshakes: 2,
        quic_idle_timeout: Duration::from_secs(150),
        keep_alive_interval: Duration::from_secs(10),
        prelude_timeout: Duration::from_secs(3),
        control_timeout: Duration::from_secs(10),
        stream_open_rate_per_second: 16,
        message_rate_per_second: 128,
        max_frame_bytes: 1_000,
        max_message_bytes: 2_000,
        max_open_streams: 10,
        max_inbound_queue_depth: 20,
    };
    assert_eq!(
        after_responder_handshake(
            &local,
            Err(ZakuraHandlerError::ResourceLimit(
                ResourceCap::PendingHandshake
            ))
        ),
        AcceptStep::Done
    );
    assert_eq!(
        after_responder_handshake(&local, Err(ZakuraHandlerError::Validation)),
        AcceptStep::Close(CloseFrame {
            code: 0,
            reason: CloseReason::ControlHandshake
        })
    );
    let negotiated = ZakuraLimits {
        max_frame_bytes: 500,
        max_message_bytes: 5_000,
        max_open_streams: 5,
        max_inbound_queue_depth: 50,
        idle_timeout_millis: 1_000,
    };
    assert_eq!(
        after_responder_handshake(&local, Ok(negotiated)),
        AcceptStep::Serve(local.clamp(&negotiated))
    );
}

#[test]
fn one_way_streams_never_end_the_connection() {
    let mut bucket = RateBucket::new(1, NOW);
    let mut step = |read: Result<Frame, ZakuraHandlerError>| {
        stream_worker(&read, &limits(), &mut bucket, NOW)
    };
    assert_eq!(step(Ok(frame(9))), stop(Some(4), false));
    assert_eq!(step(Ok(frame(8))), WorkerStep::Deliver);
    assert_eq!(step(Ok(frame(8))), WorkerStep::Read);
    assert_eq!(step(Err(ZakuraHandlerError::Closed)), stop(None, false));
    assert_eq!(
        step(Err(ZakuraHandlerError::Oversize)),
        stop(Some(2), false)
    );
}

#[test]
fn bad_requests_end_the_connection_and_throttled_ones_do_not() {
    assert_eq!(request_stream_start(Some(1)), WorkerStep::Read);
    assert_eq!(request_stream_start(None), stop(Some(2), true));
    let mut bucket = RateBucket::new(1, NOW);
    let mut step = |read: Result<Frame, ZakuraHandlerError>| {
        request_stream_worker(&read, &limits(), &mut bucket, NOW)
    };
    assert_eq!(step(Ok(frame(9))), stop(Some(4), true));
    assert_eq!(step(Ok(frame(8))), WorkerStep::Deliver);
    assert_eq!(step(Ok(frame(8))), stop(Some(3), false));
    assert_eq!(step(Err(ZakuraHandlerError::Closed)), stop(Some(2), true));

    assert_eq!(after_sink_request(&Ok(Vec::new())), WorkerStep::Respond);
    assert_eq!(
        after_sink_request(&Err(InboundSinkReject::protocol("bad".to_string()))),
        stop(Some(2), true)
    );
    assert_eq!(
        after_sink_request(&Err(InboundSinkReject::local("busy".to_string()))),
        stop(Some(1), false)
    );
}

#[test]
fn response_frames_stay_within_both_caps() {
    let mut limits = limits();
    assert_eq!(
        encode_response_frame(&frame(4), &limits),
        Ok(vec![1, 0, 0, 0, 4, 0, 0, 0, 0, 0, 0, 0])
    );
    assert_eq!(
        encode_response_frame(&frame(5), &limits),
        Err(ZakuraHandlerError::Oversize)
    );
    limits.max_frame_bytes = 100;
    assert_eq!(
        encode_response_frame(&frame(9), &limits),
        Err(ZakuraHandlerError::Oversize)
    );
}

#[test]
fn only_protocol_rejects_stop_the_sink() {
    assert_eq!(inbound_message_sink(&Ok(())), SinkStep::Next);
    assert_eq!(
        inbound_message_sink(&Err(InboundSinkReject::local("full".to_string()))),
        SinkStep::Next
    );
    assert_eq!(
        inbound_message_sink(&Err(InboundSinkReject::protocol("bad".to_string()))),
        SinkStep::Stop {
            cancel_connection: true
        }
    );
}

#[test]
fn default_sink_drops_frames_and_refuses_requests() {
    let sink = DropInboundSink;
    let peer = ZakuraPeerId::new(vec![1]);
    assert!(sink.deliver(peer.clone(), 2, frame(1)).is_ok());
    match sink.request(peer, 3, 1, 100, frame(1)) {
        Err(InboundSinkReject::Protocol(error)) => assert_eq!(
            error,
            "request streams are not supported by this inbound sink"
        ),
        other => panic!("expected a protocol reject, got {other:?}"),
    }
}

#[test]
fn idle_connections_are_reaped_after_their_timeout() {
    let last = Timestamp {
        nanos: 1_000_000_000,
    };
    let idle = Duration::from_secs(5);
    let at = |seconds: u128| Timestamp {
        nanos: seconds * 1_000_000_000,
    };
    assert_eq!(
        freshness_reaper(last, idle, at(3)),
        Some(Duration::from_secs(3))
    );
    assert_eq!(freshness_reaper(last, idle, at(6)), None);
    assert_eq!(freshness_reaper(last, idle, at(0)), Some(idle));
}

#[test]
fn written_responses_finish_their_stream() {
    assert_eq!(after_response_write(true), WorkerStep::Finish);
    assert_eq!(
        after_response_write(false),
        WorkerStep::Stop {
            reset: Some(2),
            cancel_connection: false
        }
    );
}
