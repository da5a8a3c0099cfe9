//! Decisions of the tasks that serve one connection.
//!
//! Each task reads, writes and waits on its own; what it does next is decided here.

use crate::error::{ResourceCap, ZakuraHandlerError};
use crate::limits::{ZakuraAcceptedLimits, ZakuraConnectionLimits, ZakuraLocalLimits};
use crate::rate::{admit_inbound_message, InboundMessageAdmission, RateBucket};
use crate::sink::InboundSinkReject;
use crate::streams::{
    ZAKURA_CLOSE_BAD_PRELUDE, ZAKURA_CLOSE_NEUTRAL, ZAKURA_CLOSE_OVERSIZE,
    ZAKURA_CLOSE_RATE_LIMIT, ZAKURA_CLOSE_RESOURCE,
};
use crate::time::{Duration, Timestamp};
use crate::types::Frame;
use vstd::prelude::*;

verus! {

/// Seconds that the workers of a connection get to end.
pub const STREAM_WORKER_DRAIN_TIMEOUT_SECS: u64 = 1;

/// How a connection is closed.
#[derive(Copy, Clone, Debug, PartialEq, Eq, Structural)]
pub struct CloseFrame {
    /// The close code.
    pub code: u32,
    /// The reason given to the peer.
    pub reason: CloseReason,
}

/// The reason given to the peer of a closed connection.
#[derive(Copy, Clone, Debug, PartialEq, Eq, Structural)]
pub enum CloseReason {
    /// No place for another connection.
    Admission,
    /// No place for another handshake.
    PendingHandshake,
    /// The control handshake failed.
    ControlHandshake,
    /// The peer has a connection already.
    Duplicate,
    /// The peer could not be registered.
    Registration,
    /// Nothing was heard for too long.
    Idle,
    /// The response to a request was malformed.
    MalformedResponse,
}

/// What the task that serves a connection is doing.
#[derive(Copy, Clone, Debug, PartialEq, Eq, Structural)]
pub enum ServePhase {
    /// Serving.
    Serving,
    /// Waiting for its workers to end.
    Draining,
    /// Finished.
    Finished,
}

/// What happened on a connection.
#[derive(Copy, Clone, Debug, PartialEq, Eq, Structural)]
pub enum ServeEvent {
    /// The connection or the endpoint was told to stop.
    Cancelled,
    /// Nothing was heard for the idle timeout.
    IdleExpired,
    /// A worker ended.
    WorkerJoined,
    /// The peer opened a stream.
    StreamAccepted,
    /// No more streams can be accepted.
    AcceptFailed,
    /// Nobody can queue outbound work any more.
    OutboundClosed,
    /// A one-way frame is to be written.
    OutboundFrame,
    /// A request is to be written and its response read.
    OutboundRequest,
    /// No worker is left, or they took too long.
    Drained,
}

/// What the task does next.
#[derive(Copy, Clone, Debug, PartialEq, Eq, Structural)]
pub enum ServeAction {
    /// Wait for the next event.
    Wait,
    /// Admit the stream.
    AdmitStream,
    /// Write the frame and report to the sender.
    WriteFrame,
    /// Run the request.
    RunRequest,
    /// Stop the workers and wait for them.
    Drain {
        /// How the connection is closed, if it is closed first.
        close: Option<CloseFrame>,
    },
    /// Abort the remaining workers and deregister the peer.
    Deregister,
}

/// What follows an event in a phase, and the phase after it.
pub open spec fn serve_next(phase: ServePhase, event: ServeEvent) -> (ServePhase, ServeAction) {
    match phase {
        ServePhase::Serving => match event {
            ServeEvent::Cancelled => (ServePhase::Draining, ServeAction::Drain { close: None }),
            ServeEvent::IdleExpired => (
                ServePhase::Draining,
                ServeAction::Drain {
                    close: Some(
                        CloseFrame { code: ZAKURA_CLOSE_NEUTRAL, reason: CloseReason::Idle },
                    ),
                },
            ),
            ServeEvent::AcceptFailed => (ServePhase::Draining, ServeAction::Drain { close: None }),
            ServeEvent::OutboundClosed => (
                ServePhase::Draining,
                ServeAction::Drain { close: None },
            ),
            ServeEvent::StreamAccepted => (ServePhase::Serving, ServeAction::AdmitStream),
            ServeEvent::OutboundFrame => (ServePhase::Serving, ServeAction::WriteFrame),
            ServeEvent::OutboundRequest => (ServePhase::Serving, ServeAction::RunRequest),
            _ => (ServePhase::Serving, ServeAction::Wait),
        },
        ServePhase::Draining => match event {
            ServeEvent::Drained => (ServePhase::Finished, ServeAction::Deregister),
            _ => (ServePhase::Draining, ServeAction::Wait),
        },
        ServePhase::Finished => (ServePhase::Finished, ServeAction::Wait),
    }
}

/// Decides what the task that serves a connection does next.
pub fn serve_connection(phase: &mut ServePhase, event: ServeEvent) -> (action: ServeAction)
    ensures
        (*final(phase), action) == serve_next(*old(phase), event),
{
    match *phase {
        ServePhase::Serving => match event {
            ServeEvent::Cancelled | ServeEvent::AcceptFailed | ServeEvent::OutboundClosed => {
                *phase = ServePhase::Draining;
                ServeAction::Drain { close: None }
            },
            ServeEvent::IdleExpired => {
                *phase = ServePhase::Draining;
                ServeAction::Drain {
                    close: Some(
                        CloseFrame { code: ZAKURA_CLOSE_NEUTRAL, reason: CloseReason::Idle },
                    ),
                }
            },
            ServeEvent::StreamAccepted => ServeAction::AdmitStream,
            ServeEvent::OutboundFrame => ServeAction::WriteFrame,
            ServeEvent::OutboundRequest => ServeAction::RunRequest,
            ServeEvent::WorkerJoined | ServeEvent::Drained => ServeAction::Wait,
        },
        ServePhase::Draining => match event {
            ServeEvent::Drained => {
                *phase = ServePhase::Finished;
                ServeAction::Deregister
            },
            _ => ServeAction::Wait,
        },
        ServePhase::Finished => ServeAction::Wait,
    }
}

/// The phase after a run of events.
pub open spec fn serve_run(phase: ServePhase, events: Seq<ServeEvent>) -> ServePhase
    decreases events.len(),
{
    if events.len() == 0 {
        phase
    } else {
        serve_run(serve_next(phase, events[0]).0, events.drop_first())
    }
}

/// How often a run of events leads to a deregistration.
pub open spec fn deregistrations(phase: ServePhase, events: Seq<ServeEvent>) -> nat
    decreases events.len(),
{
    if events.len() == 0 {
        0
    } else {
        let (next, action) = serve_next(phase, events[0]);
        (if action == ServeAction::Deregister {
            1nat
        } else {
            0
        }) + deregistrations(next, events.drop_first())
    }
}

/// Whatever happens on a connection, its peer is deregistered exactly once when the
/// task ends, and never while it goes on.
pub proof fn law_peer_is_deregistered_exactly_once(events: Seq<ServeEvent>)
    ensures
        deregistrations(ServePhase::Serving, events) == (if serve_run(
            ServePhase::Serving,
            events,
        ) == ServePhase::Finished {
            1nat
        } else {
            0
        }),
{
    lemma_deregistrations(ServePhase::Serving, events);
}

/// A run that starts before the end deregisters once if it reaches the end; one that
/// starts at the end never does.
proof fn lemma_deregistrations(phase: ServePhase, events: Seq<ServeEvent>)
    ensures
        deregistrations(phase, events) == (if serve_run(phase, events) == ServePhase::Finished
            && phase != ServePhase::Finished {
            1nat
        } else {
            0
        }),
        phase == ServePhase::Finished ==> serve_run(phase, events) == ServePhase::Finished,
    decreases events.len(),
{
    if events.len() > 0 {
        lemma_deregistrations(serve_next(phase, events[0]).0, events.drop_first());
    }
}

/// What an inbound connection leads to.
#[derive(Copy, Clone, Debug, PartialEq, Eq, Structural)]
pub enum AcceptStep {
    /// Close the connection.
    Close(CloseFrame),
    /// The connection was closed already.
    Done,
    /// Run the control handshake.
    Handshake,
    /// Register the peer and serve it under these limits.
    Serve(ZakuraConnectionLimits),
}

/// Decides on a new inbound connection by whether there is a place for it.
pub fn accept_connection(has_place: bool) -> (step: AcceptStep)
    ensures
        step == (if has_place {
            AcceptStep::Handshake
        } else {
            AcceptStep::Close(
                CloseFrame { code: ZAKURA_CLOSE_RESOURCE, reason: CloseReason::Admission },
            )
        }),
{
    if has_place {
        AcceptStep::Handshake
    } else {
        AcceptStep::Close(
            CloseFrame { code: ZAKURA_CLOSE_RESOURCE, reason: CloseReason::Admission },
        )
    }
}

/// How a connection is closed when there is no place for another handshake.
pub fn pending_handshake_close() -> (close: CloseFrame)
    ensures
        close == (CloseFrame {
            code: ZAKURA_CLOSE_RESOURCE,
            reason: CloseReason::PendingHandshake,
        }),
{
    CloseFrame { code: ZAKURA_CLOSE_RESOURCE, reason: CloseReason::PendingHandshake }
}

/// Decides on an inbound connection once its handshake ended. One for which there was no
/// place to shake hands has been closed already.
pub fn after_responder_handshake(
    local: &ZakuraLocalLimits,
    negotiated: Result<ZakuraAcceptedLimits, ZakuraHandlerError>,
) -> (step: AcceptStep)
    ensures
        step == (match negotiated {
            Ok(negotiated) => AcceptStep::Serve(local.clamped(negotiated)),
            Err(ZakuraHandlerError::ResourceLimit(ResourceCap::PendingHandshake)) => {
                AcceptStep::Done
            },
            Err(_) => AcceptStep::Close(
                CloseFrame { code: ZAKURA_CLOSE_NEUTRAL, reason: CloseReason::ControlHandshake },
            ),
        }),
{
    match negotiated {
        Ok(negotiated) => AcceptStep::Serve(local.clamp(&negotiated)),
        Err(ZakuraHandlerError::ResourceLimit(ResourceCap::PendingHandshake)) => AcceptStep::Done,
        Err(_) => AcceptStep::Close(
            CloseFrame { code: ZAKURA_CLOSE_NEUTRAL, reason: CloseReason::ControlHandshake },
        ),
    }
}

/// What a stream worker does next.
#[derive(Copy, Clone, Debug, PartialEq, Eq, Structural)]
pub enum WorkerStep {
    /// Read the next frame.
    Read,
    /// Hand the frame to the sink, then go on.
    Deliver,
    /// Stop.
    Stop {
        /// The code that the stream is reset with, if it is reset.
        reset: Option<u32>,
        /// Whether the connection ends too.
        cancel_connection: bool,
    },
    /// Write the response.
    Respond,
    /// Finish the stream and stop.
    Finish,
}

/// A worker that stops without a reset.
pub open spec fn quiet_stop() -> WorkerStep {
    WorkerStep::Stop { reset: None, cancel_connection: false }
}

/// A worker that resets its stream and stops.
pub open spec fn reset_stop(code: u32, cancel_connection: bool) -> WorkerStep {
    WorkerStep::Stop { reset: Some(code), cancel_connection }
}

/// Whether a message of `len` bytes passes at `now`.
pub open spec fn message_admission(
    len: nat,
    max_message_bytes: u32,
    bucket: RateBucket,
    now: Timestamp,
) -> InboundMessageAdmission {
    if len > max_message_bytes {
        InboundMessageAdmission::Oversize
    } else if bucket.grants(now) {
        InboundMessageAdmission::Admit
    } else {
        InboundMessageAdmission::Throttled
    }
}

/// The bucket after a message of `len` bytes at `now`.
pub open spec fn bucket_after(
    len: nat,
    max_message_bytes: u32,
    bucket: RateBucket,
    now: Timestamp,
) -> RateBucket {
    if len > max_message_bytes {
        bucket
    } else {
        bucket.after_take(now)
    }
}

/// The length of the message that was read.
pub open spec fn message_len(read: Result<Frame, ZakuraHandlerError>) -> Result<
    nat,
    ZakuraHandlerError,
> {
    match read {
        Ok(frame) => Ok(frame@.payload.len()),
        Err(error) => Err(error),
    }
}

/// What a one-way stream worker does with a message of that length, or without one.
pub open spec fn one_way_step(
    len: Result<nat, ZakuraHandlerError>,
    max_message_bytes: u32,
    bucket: RateBucket,
    now: Timestamp,
) -> WorkerStep {
    match len {
        Ok(len) => match message_admission(len, max_message_bytes, bucket, now) {
            InboundMessageAdmission::Admit => WorkerStep::Deliver,
            InboundMessageAdmission::Oversize => reset_stop(ZAKURA_CLOSE_OVERSIZE, false),
            InboundMessageAdmission::Throttled => WorkerStep::Read,
        },
        Err(ZakuraHandlerError::Closed) => quiet_stop(),
        Err(_) => reset_stop(ZAKURA_CLOSE_BAD_PRELUDE, false),
    }
}

/// What a request stream worker does with a message of that length, or without one.
pub open spec fn request_step(
    len: Result<nat, ZakuraHandlerError>,
    max_message_bytes: u32,
    bucket: RateBucket,
    now: Timestamp,
) -> WorkerStep {
    match len {
        Ok(len) => match message_admission(len, max_message_bytes, bucket, now) {
            InboundMessageAdmission::Admit => WorkerStep::Deliver,
            InboundMessageAdmission::Oversize => reset_stop(ZAKURA_CLOSE_OVERSIZE, true),
            InboundMessageAdmission::Throttled => reset_stop(ZAKURA_CLOSE_RATE_LIMIT, false),
        },
        Err(_) => reset_stop(ZAKURA_CLOSE_BAD_PRELUDE, true),
    }
}

/// Decides what a one-way stream worker does with what it read. An oversize message
/// ends the stream, and one that comes too soon is dropped.
pub fn stream_worker(
    read: &Result<Frame, ZakuraHandlerError>,
    limits: &ZakuraConnectionLimits,
    bucket: &mut RateBucket,
    now: Timestamp,
) -> (step: WorkerStep)
    requires
        old(bucket).wf(),
    ensures
        final(bucket).wf(),
        step == one_way_step(message_len(*read), limits.max_message_bytes, *old(bucket), now),
        *final(bucket) == (match message_len(*read) {
            Ok(len) => bucket_after(len, limits.max_message_bytes, *old(bucket), now),
            Err(_) => *old(bucket),
        }),
{
    match read {
        Ok(frame) => match admit_inbound_message(
            frame.payload.len(),
            limits.max_message_bytes,
            bucket,
            now,
        ) {
            InboundMessageAdmission::Admit => WorkerStep::Deliver,
            InboundMessageAdmission::Oversize => WorkerStep::Stop {
                reset: Some(ZAKURA_CLOSE_OVERSIZE),
                cancel_connection: false,
            },
            InboundMessageAdmission::Throttled => WorkerStep::Read,
        },
        Err(error) => {
            if *error == ZakuraHandlerError::Closed {
                WorkerStep::Stop { reset: None, cancel_connection: false }
            } else {
                WorkerStep::Stop {
                    reset: Some(ZAKURA_CLOSE_BAD_PRELUDE),
                    cancel_connection: false,
                }
            }
        },
    }
}

/// Decides what a request stream worker does first: without a request id the stream and
/// the connection end.
pub fn request_stream_start(request_id: Option<u64>) -> (step: WorkerStep)
    ensures
        step == (if request_id is Some {
            WorkerStep::Read
        } else {
            reset_stop(ZAKURA_CLOSE_BAD_PRELUDE, true)
        }),
{
    if request_id.is_some() {
        WorkerStep::Read
    } else {
        WorkerStep::Stop { reset: Some(ZAKURA_CLOSE_BAD_PRELUDE), cancel_connection: true }
    }
}

/// Decides what a request stream worker does with the request it read. A request that
/// cannot be read or is oversize ends the connection; one that comes too soon costs only
/// itself.
pub fn request_stream_worker(
    read: &Result<Frame, ZakuraHandlerError>,
    limits: &ZakuraConnectionLimits,
    bucket: &mut RateBucket,
    now: Timestamp,
) -> (step: WorkerStep)
    requires
        old(bucket).wf(),
    ensures
        final(bucket).wf(),
        step == request_step(message_len(*read), limits.max_message_bytes, *old(bucket), now),
        *final(bucket) == (match message_len(*read) {
            Ok(len) => bucket_after(len, limits.max_message_bytes, *old(bucket), now),
            Err(_) => *old(bucket),
        }),
{
    match read {
        Ok(frame) => match admit_inbound_message(
            frame.payload.len(),
            limits.max_message_bytes,
            bucket,
            now,
        ) {
            InboundMessageAdmission::Admit => WorkerStep::Deliver,
            InboundMessageAdmission::Oversize => WorkerStep::Stop {
                reset: Some(ZAKURA_CLOSE_OVERSIZE),
                cancel_connection: true,
            },
            InboundMessageAdmission::Throttled => WorkerStep::Stop {
                reset: Some(ZAKURA_CLOSE_RATE_LIMIT),
                cancel_connection: false,
            },
        },
        Err(_) => WorkerStep::Stop {
            reset: Some(ZAKURA_CLOSE_BAD_PRELUDE),
            cancel_connection: true,
        },
    }
}

/// Decides what a request stream worker does with the sink's answer.
pub fn after_sink_request(answer: &Result<Vec<Frame>, InboundSinkReject>) -> (step: WorkerStep)
    ensures
        step == (match *answer {
            Ok(_) => WorkerStep::Respond,
            Err(InboundSinkReject::Protocol(_)) => reset_stop(ZAKURA_CLOSE_BAD_PRELUDE, true),
            Err(InboundSinkReject::Local(_)) => reset_stop(ZAKURA_CLOSE_RESOURCE, false),
        }),
{
    match answer {
        Ok(_) => WorkerStep::Respond,
        Err(InboundSinkReject::Protocol(_)) => WorkerStep::Stop {
            reset: Some(ZAKURA_CLOSE_BAD_PRELUDE),
            cancel_connection: true,
        },
        Err(InboundSinkReject::Local(_)) => WorkerStep::Stop {
            reset: Some(ZAKURA_CLOSE_RESOURCE),
            cancel_connection: false,
        },
    }
}

/// Decides what a request stream worker does once its response was written or not. A
/// response that is written finishes the stream; one that could not be written costs the
/// stream and nothing else.
pub fn after_response_write(written: bool) -> (step: WorkerStep)
    ensures
        step == (if written {
            WorkerStep::Finish
        } else {
            reset_stop(ZAKURA_CLOSE_BAD_PRELUDE, false)
        }),
{
    if written {
        WorkerStep::Finish
    } else {
        WorkerStep::Stop { reset: Some(ZAKURA_CLOSE_BAD_PRELUDE), cancel_connection: false }
    }
}

/// The bytes of a response frame, unless it is larger than a message or a frame may be.
pub fn encode_response_frame(frame: &Frame, limits: &ZakuraConnectionLimits) -> (encoded: Result<
    Vec<u8>,
    ZakuraHandlerError,
>)
    ensures
        match encoded {
            Ok(bytes) => frame@.payload.len() <= limits.max_message_bytes
                && crate::wire::FRAME_HEADER_BYTES + frame@.payload.len() <= limits.max_frame_bytes
                && crate::wire::frame_encoded_as(frame@, bytes@),
            Err(error) => error == ZakuraHandlerError::Oversize && (frame@.payload.len()
                > limits.max_message_bytes || crate::wire::FRAME_HEADER_BYTES + frame@.payload.len()
                > limits.max_frame_bytes),
        },
{
    if frame.payload.len() > limits.max_message_bytes as usize {
        return Err(ZakuraHandlerError::Oversize);
    }
    frame.encode(limits.max_frame_bytes)
}

/// What the task that feeds the sink does next.
#[derive(Copy, Clone, Debug, PartialEq, Eq, Structural)]
pub enum SinkStep {
    /// Take the next message.
    Next,
    /// Stop.
    Stop {
        /// Whether the connection ends too.
        cancel_connection: bool,
    },
}

/// Decides what the sink's verdict on a delivered frame means: only a protocol violation
/// ends the connection.
pub fn inbound_message_sink(delivered: &Result<(), InboundSinkReject>) -> (step: SinkStep)
    ensures
        step == (match *delivered {
            Err(InboundSinkReject::Protocol(_)) => SinkStep::Stop { cancel_connection: true },
            _ => SinkStep::Next,
        }),
{
    match delivered {
        Err(InboundSinkReject::Protocol(_)) => SinkStep::Stop { cancel_connection: true },
        _ => SinkStep::Next,
    }
}

/// How long to wait at `now` until a connection that was last heard at `last` is idle;
/// none when it is.
pub fn freshness_reaper(last: Timestamp, idle_timeout: Duration, now: Timestamp) -> (wait: Option<
    Duration,
>)
    ensures
        match wait {
            Some(wait) => now.spec_since(last) < idle_timeout.nanos && wait.nanos
                == idle_timeout.nanos - now.spec_since(last),
            None => now.spec_since(last) >= idle_timeout.nanos,
        },
{
    let elapsed = now.saturating_duration_since(last);
    if elapsed.nanos >= idle_timeout.nanos {
        return None;
    }
    Some(Duration { nanos: idle_timeout.nanos - elapsed.nanos })
}

/// Whether a step ends the connection.
pub open spec fn ends_connection(step: WorkerStep) -> bool {
    step matches WorkerStep::Stop { cancel_connection, .. } && cancel_connection
}

/// A one-way stream never ends its connection. A request ends it exactly when it cannot
/// be read or is oversize; one that comes too soon never does.
pub proof fn law_throttling_never_ends_connections(
    len: Result<nat, ZakuraHandlerError>,
    max_message_bytes: u32,
    bucket: RateBucket,
    now: Timestamp,
)
    ensures
        !ends_connection(one_way_step(len, max_message_bytes, bucket, now)),
        ends_connection(request_step(len, max_message_bytes, bucket, now)) <==> match len {
            Ok(len) => len > max_message_bytes,
            Err(_) => true,
        },
{
}

/// Every message that is handed on fits the negotiated size and had a place in the rate.
pub proof fn law_delivered_messages_are_within_limits(
    len: Result<nat, ZakuraHandlerError>,
    max_message_bytes: u32,
    bucket: RateBucket,
    now: Timestamp,
)
    ensures
        one_way_step(len, max_message_bytes, bucket, now) == WorkerStep::Deliver <==> (
        len matches Ok(len) && len <= max_message_bytes && bucket.grants(now)),
        request_step(len, max_message_bytes, bucket, now) == WorkerStep::Deliver <==> (
        len matches Ok(len) && len <= max_message_bytes && bucket.grants(now)),
{
}

/// Whether an event ends the service of a connection.
pub open spec fn is_ending(event: ServeEvent) -> bool {
    event == ServeEvent::Cancelled || event == ServeEvent::IdleExpired || event
        == ServeEvent::AcceptFailed || event == ServeEvent::OutboundClosed
}

/// A connection is served until something ends it: until then every stream that the peer
/// opens is admitted, every frame is written and every request is run. Once it has ended
/// nothing is served any more, and only silence closes the connection by itself.
pub proof fn law_connections_are_served_until_they_end(
    events: Seq<ServeEvent>,
    event: ServeEvent,
)
    ensures
        ({
            let phase = serve_run(ServePhase::Serving, events);
            let (next, action) = serve_next(phase, event);
            let ended = exists|i: int| 0 <= i < events.len() && is_ending(#[trigger] events[i]);
            &&& phase == ServePhase::Serving <==> !ended
            &&& action == ServeAction::AdmitStream <==> !ended && event
                == ServeEvent::StreamAccepted
            &&& action == ServeAction::WriteFrame <==> !ended && event == ServeEvent::OutboundFrame
            &&& action == ServeAction::RunRequest <==> !ended && event
                == ServeEvent::OutboundRequest
            &&& action is Drain <==> !ended && is_ending(event)
            &&& action matches ServeAction::Drain { close } ==> close == (if event
                == ServeEvent::IdleExpired {
                Some(CloseFrame { code: ZAKURA_CLOSE_NEUTRAL, reason: CloseReason::Idle })
            } else {
                None
            })
            &&& action == ServeAction::Deregister <==> phase == ServePhase::Draining && event
                == ServeEvent::Drained
            &&& next == ServePhase::Finished <==> phase == ServePhase::Finished || action
                == ServeAction::Deregister
        }),
    decreases events.len(),
{
    lemma_serve_run(ServePhase::Serving, events);
}

/// A run that serves goes on exactly while nothing ends it.
proof fn lemma_serve_run(phase: ServePhase, events: Seq<ServeEvent>)
    ensures
        serve_run(phase, events) == ServePhase::Serving <==> phase == ServePhase::Serving && !(
        exists|i: int| 0 <= i < events.len() && is_ending(#[trigger] events[i])),
    decreases events.len(),
{
    if events.len() > 0 {
        let next = serve_next(phase, events[0]).0;
        let rest = events.drop_first();
        lemma_serve_run(next, rest);
        assert forall|i: int| 0 <= i < rest.len() implies #[trigger] rest[i] == events[i + 1] by {}
        if exists|i: int| 0 <= i < events.len() && is_ending(#[trigger] events[i]) {
            let i = choose|i: int| 0 <= i < events.len() && is_ending(#[trigger] events[i]);
            if i > 0 {
                assert(is_ending(rest[i - 1]));
            }
        }
        if exists|i: int| 0 <= i < rest.len() && is_ending(#[trigger] rest[i]) {
            let i = choose|i: int| 0 <= i < rest.len() && is_ending(#[trigger] rest[i]);
            assert(is_ending(events[i + 1]));
        }
    }
}

/// What becomes of a message: one that fits and has a token is delivered; one that is too
/// large ends its stream with the oversize code; one without a token is skipped on a one-way
/// stream and refused with the rate code on a request stream. A one-way stream that ends
/// cleanly ends quietly, and whatever cannot be read is answered with the prelude code.
pub proof fn law_messages_get_what_they_are_due(
    len: Result<nat, ZakuraHandlerError>,
    max_message_bytes: u32,
    bucket: RateBucket,
    now: Timestamp,
)
    ensures
        ({
            let one_way = one_way_step(len, max_message_bytes, bucket, now);
            let request = request_step(len, max_message_bytes, bucket, now);
            match len {
                Ok(len) => {
                    &&& len > max_message_bytes ==> one_way == (WorkerStep::Stop {
                        reset: Some(ZAKURA_CLOSE_OVERSIZE),
                        cancel_connection: false,
                    }) && request == (WorkerStep::Stop {
                        reset: Some(ZAKURA_CLOSE_OVERSIZE),
                        cancel_connection: true,
                    })
                    &&& len <= max_message_bytes && bucket.grants(now) ==> one_way
                        == WorkerStep::Deliver && request == WorkerStep::Deliver
                    &&& len <= max_message_bytes && !bucket.grants(now) ==> one_way
                        == WorkerStep::Read && request == (WorkerStep::Stop {
                        reset: Some(ZAKURA_CLOSE_RATE_LIMIT),
                        cancel_connection: false,
                    })
                    &&& len <= max_message_bytes ==> bucket_after(
                        len,
                        max_message_bytes,
                        bucket,
                        now,
                    ) == bucket.after_take(now)
                    &&& len > max_message_bytes ==> bucket_after(
                        len,
                        max_message_bytes,
                        bucket,
                        now,
                    ) == bucket
                },
                Err(error) => {
                    &&& request == (WorkerStep::Stop {
                        reset: Some(ZAKURA_CLOSE_BAD_PRELUDE),
                        cancel_connection: true,
                    })
                    &&& error is Closed ==> one_way == (WorkerStep::Stop {
                        reset: None,
                        cancel_connection: false,
                    })
                    &&& !(error is Closed) ==> one_way == (WorkerStep::Stop {
                        reset: Some(ZAKURA_CLOSE_BAD_PRELUDE),
                        cancel_connection: false,
                    })
                },
            }
        }),
{
}

} // verus!
