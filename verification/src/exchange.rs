//! One outbound request and the frames of its response.

use crate::echo_status::{self, TestEchoStatusResponseReadState};
use crate::legacy_response::{
    self, FrameStep, LegacyReadView, LegacyResponseBudget, LegacyResponseReadState,
};
use crate::limits::ZakuraConnectionLimits;
use crate::outbound::{OutboundRequestError, RequestFault};
use crate::streams::{
    self, is_test_service_stream_kind, LEGACY_REQUEST_STREAM_KIND, ZAKURA_CLOSE_BAD_PRELUDE,
    ZAKURA_STREAM_VERSION_1,
};
use crate::types::Frame;
use crate::wire::StreamPrelude;
use vstd::prelude::*;

verus! {

/// Seconds that opening or writing an outbound stream may take.
pub const OUTBOUND_STREAM_WRITE_TIMEOUT_SECS: u64 = 10;

/// Seconds that an outbound request and its response may take.
pub const OUTBOUND_REQUEST_RESPONSE_TIMEOUT_SECS: u64 = 30;

/// How far the response to an outbound request has been read.
#[derive(Debug)]
pub enum OutboundResponseReadState {
    /// The response to a legacy request.
    Legacy {
        /// The request.
        request_id: u64,
        /// How far its response has been read.
        state: LegacyResponseReadState,
    },
    /// The response to an echo/status request.
    TestEchoStatus(TestEchoStatusResponseReadState),
}

impl OutboundResponseReadState {
    /// The state before the response to a request on a stream of `stream_kind`.
    /// `echo_served` says whether the echo/status service is there.
    pub fn from_request(
        stream_kind: u16,
        request_id: u64,
        message_type: u16,
        payload: &[u8],
        limits: &ZakuraConnectionLimits,
        echo_served: bool,
    ) -> (state: Result<Self, OutboundRequestError>)
        ensures
            if stream_kind == LEGACY_REQUEST_STREAM_KIND {
                match legacy_response::request_budget(
                    message_type,
                    payload@,
                    limits.max_message_bytes,
                ) {
                    Err(error) => state == Err::<Self, OutboundRequestError>(error),
                    Ok(budget) => state matches Ok(OutboundResponseReadState::Legacy {
                        request_id: id,
                        state: legacy,
                    }) && id == request_id && legacy@ == (LegacyReadView {
                        budget,
                        frames: 0,
                        bytes: 0,
                        items: 0,
                        chunk_type: None,
                        chunk: Seq::empty(),
                    }),
                }
            } else if streams::is_echo(stream_kind, echo_served) {
                if message_type != echo_status::TEST_ECHO_STATUS_REQUEST {
                    state == Err::<Self, OutboundRequestError>(
                        OutboundRequestError::Local(
                            RequestFault::UnsupportedEchoRequest(message_type),
                        ),
                    )
                } else {
                    state == Ok::<Self, OutboundRequestError>(
                        OutboundResponseReadState::TestEchoStatus(
                            TestEchoStatusResponseReadState {
                                request_id,
                                frames: 0,
                                max_message_bytes: limits.max_message_bytes as usize,
                            },
                        ),
                    )
                }
            } else {
                state == Err::<Self, OutboundRequestError>(
                    OutboundRequestError::Local(RequestFault::UnsupportedStreamKind(stream_kind)),
                )
            },
    {
        if stream_kind == LEGACY_REQUEST_STREAM_KIND {
            match LegacyResponseBudget::from_request(message_type, payload, limits) {
                Ok(budget) => Ok(
                    OutboundResponseReadState::Legacy {
                        request_id,
                        state: LegacyResponseReadState::new(budget),
                    },
                ),
                Err(error) => Err(error),
            }
        } else if is_test_service_stream_kind(stream_kind, echo_served) {
            match TestEchoStatusResponseReadState::new(request_id, message_type, limits) {
                Ok(state) => Ok(OutboundResponseReadState::TestEchoStatus(state)),
                Err(error) => Err(error),
            }
        } else {
            Err(OutboundRequestError::Local(RequestFault::UnsupportedStreamKind(stream_kind)))
        }
    }

    /// Validates the next frame of the response.
    pub fn validate_frame(&mut self, frame: &Frame) -> (step: Result<
        FrameStep,
        OutboundRequestError,
    >)
        ensures
            match *old(self) {
                OutboundResponseReadState::Legacy { request_id, state } => {
                    let (expected, after) = state@.frame_read(request_id, frame@);
                    step == expected && (*final(self) matches OutboundResponseReadState::Legacy {
                        request_id: id,
                        state: legacy,
                    } && id == request_id && legacy@ == after)
                },
                OutboundResponseReadState::TestEchoStatus(state) => {
                    &&& step == (if state.frames != 0 {
                        Err::<FrameStep, OutboundRequestError>(
                            OutboundRequestError::Fatal(RequestFault::EchoTooManyFrames),
                        )
                    } else {
                        match echo_status::echo_frame_fault(state, frame@) {
                            Some(fault) => Err(OutboundRequestError::Fatal(fault)),
                            None => Ok(FrameStep::Accepted),
                        }
                    })
                    &&& *final(self) == OutboundResponseReadState::TestEchoStatus(
                        if state.frames != 0 {
                            state
                        } else {
                            TestEchoStatusResponseReadState { frames: 1, ..state }
                        },
                    )
                },
            },
    {
        match self {
            OutboundResponseReadState::Legacy { request_id, state } => state.validate_frame(
                *request_id,
                frame,
            ),
            OutboundResponseReadState::TestEchoStatus(state) => match state.validate_frame(frame) {
                Ok(()) => Ok(FrameStep::Accepted),
                Err(error) => Err(error),
            },
        }
    }

    /// What concluding the response gives.
    pub open spec fn finished(self) -> Result<(), OutboundRequestError> {
        match self {
            OutboundResponseReadState::Legacy { state, .. } => if state@.chunk_type is Some {
                Err(OutboundRequestError::Fatal(RequestFault::IncompleteChunk))
            } else {
                Ok(())
            },
            OutboundResponseReadState::TestEchoStatus(state) => if state.frames == 0 {
                Err(OutboundRequestError::Fatal(RequestFault::EchoNoFrames))
            } else {
                Ok(())
            },
        }
    }

    /// Concludes the response once its stream ended.
    pub fn finish(&self) -> (result: Result<(), OutboundRequestError>)
        ensures
            result == self.finished(),
    {
        match self {
            OutboundResponseReadState::Legacy { state, .. } => state.finish(),
            OutboundResponseReadState::TestEchoStatus(state) => state.finish(),
        }
    }

    /// Takes the outcome of decoding the assembled item of a legacy response.
    pub fn item_decoded(&mut self, valid: bool) -> (result: Result<(), OutboundRequestError>)
        requires
            *old(self) is Legacy,
        ensures
            ({
                let (expected, after) = old(self)->state@.item_decoded(valid);
                result == expected && (*final(self) matches OutboundResponseReadState::Legacy {
                    request_id: id,
                    state: legacy,
                } && id == old(self)->request_id && legacy@ == after)
            }),
    {
        match self {
            OutboundResponseReadState::Legacy { state, .. } => state.validate_completed_item(valid),
            OutboundResponseReadState::TestEchoStatus(_) => Ok(()),
        }
    }

    /// Takes the outcome of decoding the headers of a legacy response.
    pub fn headers_decoded(&mut self, frame: &Frame, count: usize, end: Option<usize>) -> (result:
        Result<(), OutboundRequestError>)
        requires
            *old(self) is Legacy,
        ensures
            ({
                let (expected, after) = old(self)->state@.headers_decoded(
                    frame@.payload.len(),
                    count as int,
                    end,
                );
                result == expected && (*final(self) matches OutboundResponseReadState::Legacy {
                    request_id: id,
                    state: legacy,
                } && id == old(self)->request_id && legacy@ == after)
            }),
    {
        match self {
            OutboundResponseReadState::Legacy { state, .. } => state.legacy_header_count(
                frame.payload.as_slice(),
                count,
                end,
            ),
            OutboundResponseReadState::TestEchoStatus(_) => Ok(()),
        }
    }
}

/// The prelude of an outbound stream.
pub fn outbound_prelude(
    magic: [u8; 4],
    stream_kind: u16,
    request_id: Option<u64>,
    limits: &ZakuraConnectionLimits,
) -> (prelude: StreamPrelude)
    ensures
        prelude == (StreamPrelude {
            magic,
            stream_kind,
            stream_version: ZAKURA_STREAM_VERSION_1,
            request_id,
            max_frame_bytes: limits.max_frame_bytes,
        }),
{
    StreamPrelude {
        magic,
        stream_kind,
        stream_version: ZAKURA_STREAM_VERSION_1,
        request_id,
        max_frame_bytes: limits.max_frame_bytes,
    }
}

/// What reading the response stream gave.
#[derive(Debug)]
pub enum ResponseRead {
    /// A frame.
    Frame(Frame),
    /// The end of the stream.
    Closed,
    /// Nothing in time.
    TimedOut,
    /// A frame above the frame cap.
    Oversize,
    /// Any other failure.
    Failed,
}

/// What happens next with an exchange.
#[derive(Copy, Clone, Debug, PartialEq, Eq, Structural)]
pub enum ExchangeStep {
    /// Read on.
    Read,
    /// Decode the assembled item, and report whether it decodes.
    DecodeItem,
    /// Decode headers of the last frame, and report where they end.
    DecodeHeaders {
        /// Number of headers.
        count: usize,
        /// Where the first one starts.
        offset: usize,
    },
    /// The response is complete.
    Done,
    /// The exchange failed.
    Failed(OutboundRequestError),
}

/// One outbound request and the frames of its response that were accepted so far.
#[derive(Debug)]
pub struct OutboundExchange {
    /// How far the response has been read.
    pub state: OutboundResponseReadState,
    /// The frames so far; while a decode is awaited, its frame is the last one.
    pub frames: Vec<Frame>,
}

/// What a read that brought no frame means.
pub open spec fn end_of_read(
    state: OutboundResponseReadState,
    read: ResponseRead,
) -> ExchangeStep {
    match read {
        ResponseRead::Closed => match state.finished() {
            Ok(_) => ExchangeStep::Done,
            Err(error) => ExchangeStep::Failed(error),
        },
        ResponseRead::TimedOut => ExchangeStep::Failed(
            OutboundRequestError::Local(RequestFault::ResponseTimeout),
        ),
        ResponseRead::Oversize => ExchangeStep::Failed(
            OutboundRequestError::Fatal(RequestFault::FrameOversize),
        ),
        _ => ExchangeStep::Failed(OutboundRequestError::Fatal(RequestFault::ReadFailed)),
    }
}

/// What the verdict on a frame means for the exchange.
pub open spec fn step_of(step: Result<FrameStep, OutboundRequestError>) -> ExchangeStep {
    match step {
        Ok(FrameStep::Accepted) => ExchangeStep::Read,
        Ok(FrameStep::DecodeItem(_)) => ExchangeStep::DecodeItem,
        Ok(FrameStep::DecodeHeaders { count, offset }) => ExchangeStep::DecodeHeaders {
            count,
            offset,
        },
        Err(error) => ExchangeStep::Failed(error),
    }
}

/// What the verdict on a decode means for the exchange.
pub open spec fn step_of_decode(result: Result<(), OutboundRequestError>) -> ExchangeStep {
    match result {
        Ok(_) => ExchangeStep::Read,
        Err(error) => ExchangeStep::Failed(error),
    }
}

impl OutboundExchange {
    /// An exchange whose request is about to be written.
    pub fn new(state: OutboundResponseReadState) -> (exchange: Self)
        ensures
            exchange.state == state,
            exchange.frames@.len() == 0,
    {
        OutboundExchange { state, frames: Vec::new() }
    }

    /// Takes what reading the response stream gave.
    pub fn on_read(&mut self, read: ResponseRead) -> (next: ExchangeStep)
        ensures
            match read {
                ResponseRead::Frame(frame) => match old(self).state {
                    OutboundResponseReadState::Legacy { request_id, state } => {
                        let (step, after) = state@.frame_read(request_id, frame@);
                        &&& next == step_of(step)
                        &&& final(self).state matches OutboundResponseReadState::Legacy {
                            request_id: id,
                            state: legacy,
                        } && id == request_id && legacy@ == after
                        &&& final(self).frames@ == (if step is Ok {
                            old(self).frames@.push(frame)
                        } else {
                            old(self).frames@
                        })
                    },
                    OutboundResponseReadState::TestEchoStatus(state) => {
                        let fault = if state.frames != 0 {
                            Some(RequestFault::EchoTooManyFrames)
                        } else {
                            echo_status::echo_frame_fault(state, frame@)
                        };
                        &&& next == (match fault {
                            Some(fault) => ExchangeStep::Failed(OutboundRequestError::Fatal(fault)),
                            None => ExchangeStep::Read,
                        })
                        &&& final(self).state == OutboundResponseReadState::TestEchoStatus(
                            if state.frames != 0 {
                                state
                            } else {
                                TestEchoStatusResponseReadState { frames: 1, ..state }
                            },
                        )
                        &&& final(self).frames@ == (if fault is None {
                            old(self).frames@.push(frame)
                        } else {
                            old(self).frames@
                        })
                    },
                },
                _ => next == end_of_read(old(self).state, read) && final(self).state == old(self).state && final(self).frames@ == old(self).frames@,
            },
    {
        match read {
            ResponseRead::Frame(frame) => {
                let step = self.state.validate_frame(&frame);
                match step {
                    Ok(step) => {
                        self.frames.push(frame);
                        match step {
                            FrameStep::Accepted => ExchangeStep::Read,
                            FrameStep::DecodeItem(_) => ExchangeStep::DecodeItem,
                            FrameStep::DecodeHeaders { count, offset } => {
                                ExchangeStep::DecodeHeaders { count, offset }
                            },
                        }
                    },
                    Err(error) => ExchangeStep::Failed(error),
                }
            },
            ResponseRead::Closed => match self.state.finish() {
                Ok(()) => ExchangeStep::Done,
                Err(error) => ExchangeStep::Failed(error),
            },
            ResponseRead::TimedOut => ExchangeStep::Failed(
                OutboundRequestError::Local(RequestFault::ResponseTimeout),
            ),
            ResponseRead::Oversize => ExchangeStep::Failed(
                OutboundRequestError::Fatal(RequestFault::FrameOversize),
            ),
            ResponseRead::Failed => ExchangeStep::Failed(
                OutboundRequestError::Fatal(RequestFault::ReadFailed),
            ),
        }
    }

    /// Takes whether the assembled item decodes.
    pub fn on_item_decoded(&mut self, valid: bool) -> (next: ExchangeStep)
        requires
            old(self).state is Legacy,
        ensures
            ({
                let (result, after) = old(self).state->state@.item_decoded(valid);
                &&& next == step_of_decode(result)
                &&& final(self).state matches OutboundResponseReadState::Legacy {
                    request_id: id,
                    state: legacy,
                } && id == old(self).state->request_id && legacy@ == after
                &&& final(self).frames@ == old(self).frames@
            }),
    {
        match self.state.item_decoded(valid) {
            Ok(()) => ExchangeStep::Read,
            Err(error) => ExchangeStep::Failed(error),
        }
    }

    /// Takes where the headers of the last frame end, or that one does not decode.
    pub fn on_headers_decoded(&mut self, count: usize, end: Option<usize>) -> (next: ExchangeStep)
        requires
            old(self).state is Legacy,
            old(self).frames@.len() > 0,
        ensures
            ({
                let (result, after) = old(self).state->state@.headers_decoded(
                    old(self).frames@.last()@.payload.len(),
                    count as int,
                    end,
                );
                &&& next == step_of_decode(result)
                &&& final(self).state matches OutboundResponseReadState::Legacy {
                    request_id: id,
                    state: legacy,
                } && id == old(self).state->request_id && legacy@ == after
                &&& final(self).frames@ == old(self).frames@
            }),
    {
        let last: usize = self.frames.len() - 1;
        match self.state.headers_decoded(&self.frames[last], count, end) {
            Ok(()) => ExchangeStep::Read,
            Err(error) => ExchangeStep::Failed(error),
        }
    }
}

/// What the end of an outbound request means for its connection.
#[derive(Copy, Clone, Debug, PartialEq, Eq, Structural)]
pub enum RequestConclusion {
    /// The response is handed to the requester.
    Answered,
    /// The requester gets the error, and the connection goes on.
    Refused(RequestFault),
    /// The connection is closed with this code, and the requester gets the error.
    CloseConnection {
        /// The close code.
        code: u32,
        /// The error.
        fault: RequestFault,
    },
}

/// What the end of an outbound request means for its connection: a local failure costs
/// the request, a protocol violation the connection.
pub fn conclude_request(result: Result<(), OutboundRequestError>) -> (conclusion: RequestConclusion)
    ensures
        conclusion == (match result {
            Ok(_) => RequestConclusion::Answered,
            Err(OutboundRequestError::Local(fault)) => RequestConclusion::Refused(fault),
            Err(OutboundRequestError::Fatal(fault)) => RequestConclusion::CloseConnection {
                code: ZAKURA_CLOSE_BAD_PRELUDE,
                fault,
            },
        }),
{
    match result {
        Ok(()) => RequestConclusion::Answered,
        Err(OutboundRequestError::Local(fault)) => RequestConclusion::Refused(fault),
        Err(OutboundRequestError::Fatal(fault)) => RequestConclusion::CloseConnection {
            code: ZAKURA_CLOSE_BAD_PRELUDE,
            fault,
        },
    }
}

/// When a response is complete: its stream ended, no item is half read, and an echo/status
/// response had its frame.
pub proof fn law_only_whole_responses_are_complete(
    state: OutboundResponseReadState,
    read: ResponseRead,
)
    requires
        !(read is Frame),
    ensures
        end_of_read(state, read) == ExchangeStep::Done <==> read is Closed && match state {
            OutboundResponseReadState::Legacy { state, .. } => state@.chunk_type is None,
            OutboundResponseReadState::TestEchoStatus(state) => state.frames > 0,
        },
        end_of_read(state, read) != ExchangeStep::Done ==> end_of_read(state, read) is Failed,
        end_of_read(state, read) matches ExchangeStep::Failed(OutboundRequestError::Local(fault))
            ==> read is TimedOut && fault == RequestFault::ResponseTimeout,
        read is TimedOut ==> end_of_read(state, read) == ExchangeStep::Failed(
            OutboundRequestError::Local(RequestFault::ResponseTimeout),
        ),
        read is Oversize ==> end_of_read(state, read) == ExchangeStep::Failed(
            OutboundRequestError::Fatal(RequestFault::FrameOversize),
        ),
        read is Failed ==> end_of_read(state, read) == ExchangeStep::Failed(
            OutboundRequestError::Fatal(RequestFault::ReadFailed),
        ),
{
}

/// An accepted frame is never dropped on the way: it is decoded where it asks for it, and
/// read past otherwise; a frame or a decode that is refused fails the exchange with what was
/// wrong.
pub proof fn law_verdicts_are_followed(
    step: Result<FrameStep, OutboundRequestError>,
    decoded: Result<(), OutboundRequestError>,
)
    ensures
        step matches Err(error) ==> step_of(step) == ExchangeStep::Failed(error),
        step matches Ok(FrameStep::Accepted) ==> step_of(step) == ExchangeStep::Read,
        step matches Ok(FrameStep::DecodeItem(_)) ==> step_of(step) == ExchangeStep::DecodeItem,
        step matches Ok(FrameStep::DecodeHeaders { count, offset }) ==> step_of(step) == (
        ExchangeStep::DecodeHeaders { count, offset }),
        decoded is Ok ==> step_of_decode(decoded) == ExchangeStep::Read,
        decoded matches Err(error) ==> step_of_decode(decoded) == ExchangeStep::Failed(error),
{
}

} // verus!
