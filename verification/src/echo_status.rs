//! The echo/status service that exercises service routing.

use crate::legacy_response::LEGACY_RESPONSE_REQUEST_ID_BYTES;
use crate::limits::ZakuraConnectionLimits;
use crate::outbound::{OutboundRequestError, RequestFault};
use crate::types::{copy_bytes, Frame, FrameView};
use crate::wire::{self, push_all, read_u64, u64_bytes};
use vstd::prelude::*;

verus! {

/// Message type of an echo/status request.
pub const TEST_ECHO_STATUS_REQUEST: u16 = 1;

/// Message type of an echo/status response.
pub const TEST_ECHO_STATUS_RESPONSE: u16 = 2;

/// Whether `bytes` are `payload` with a request id in front.
pub open spec fn echo_encoded_as(request_id: u64, payload: Seq<u8>, bytes: Seq<u8>) -> bool {
    &&& bytes.len() == LEGACY_RESPONSE_REQUEST_ID_BYTES + payload.len()
    &&& wire::le_u64(bytes) == request_id
    &&& bytes.skip(8) == payload
}

/// A response payload with its request id in front.
pub fn encode_test_echo_status_response_payload(request_id: u64, payload: &[u8]) -> (response: Vec<
    u8,
>)
    ensures
        echo_encoded_as(request_id, payload@, response@),
{
    let id = u64_bytes(request_id);
    let mut response = copy_bytes(id.as_slice());
    push_all(&mut response, payload);
    proof {
        assert(response@.skip(8) =~= payload@);
        let low = response@.skip(4);
        let id_low = id@.skip(4);
        assert(low[0] == id_low[0] && low[1] == id_low[1] && low[2] == id_low[2] && low[3]
            == id_low[3]);
    }
    response
}

/// The request id and the payload of a response.
pub open spec fn echo_payload(payload: Seq<u8>) -> Result<(u64, Seq<u8>), OutboundRequestError> {
    if payload.len() < LEGACY_RESPONSE_REQUEST_ID_BYTES {
        Err(OutboundRequestError::Fatal(RequestFault::EchoTruncated))
    } else {
        Ok((wire::le_u64(payload) as u64, payload.skip(8)))
    }
}

/// Splits the request id off a response payload.
pub fn test_echo_status_response_payload(payload: &[u8]) -> (split: Result<
    (u64, &[u8]),
    OutboundRequestError,
>)
    ensures
        match split {
            Ok((id, rest)) => echo_payload(payload@) == Ok::<
                (u64, Seq<u8>),
                OutboundRequestError,
            >((id, rest@)),
            Err(error) => echo_payload(payload@) == Err::<(u64, Seq<u8>), OutboundRequestError>(
                error,
            ),
        },
{
    if payload.len() < LEGACY_RESPONSE_REQUEST_ID_BYTES {
        return Err(OutboundRequestError::Fatal(RequestFault::EchoTruncated));
    }
    let rest = vstd::slice::slice_subrange(payload, 8, payload.len());
    assert(rest@ =~= payload@.skip(8));
    Ok((read_u64(payload), rest))
}

/// A response payload is read back as it was written.
pub proof fn law_echo_payload_round_trip(request_id: u64, payload: Seq<u8>, bytes: Seq<u8>)
    requires
        echo_encoded_as(request_id, payload, bytes),
    ensures
        echo_payload(bytes) == Ok::<(u64, Seq<u8>), OutboundRequestError>((request_id, payload)),
{
}

/// How far an echo/status response has been read.
#[derive(Copy, Clone, Debug, PartialEq, Eq, Structural)]
pub struct TestEchoStatusResponseReadState {
    /// The request.
    pub request_id: u64,
    /// Frames so far.
    pub frames: usize,
    /// The most payload bytes.
    pub max_message_bytes: usize,
}

/// What is wrong with the first frame of an echo/status response, if anything is.
pub open spec fn echo_frame_fault(
    state: TestEchoStatusResponseReadState,
    frame: FrameView,
) -> Option<RequestFault> {
    if frame.message_type != TEST_ECHO_STATUS_RESPONSE {
        Some(RequestFault::EchoWrongType(frame.message_type))
    } else if frame.flags != 0 {
        Some(RequestFault::EchoFlags)
    } else if frame.payload.len() > state.max_message_bytes {
        Some(RequestFault::EchoOversize)
    } else {
        match echo_payload(frame.payload) {
            Err(_) => Some(RequestFault::EchoTruncated),
            Ok((got, _)) => if got != state.request_id {
                Some(RequestFault::EchoWrongId { expected: state.request_id, got })
            } else {
                None
            },
        }
    }
}

impl TestEchoStatusResponseReadState {
    /// A response of which nothing has been read.
    pub fn new(request_id: u64, message_type: u16, limits: &ZakuraConnectionLimits) -> (state:
        Result<Self, OutboundRequestError>)
        ensures
            state == (if message_type != TEST_ECHO_STATUS_REQUEST {
                Err::<Self, OutboundRequestError>(
                    OutboundRequestError::Local(RequestFault::UnsupportedEchoRequest(message_type)),
                )
            } else {
                Ok(
                    TestEchoStatusResponseReadState {
                        request_id,
                        frames: 0,
                        max_message_bytes: limits.max_message_bytes as usize,
                    },
                )
            }),
    {
        if message_type != TEST_ECHO_STATUS_REQUEST {
            return Err(
                OutboundRequestError::Local(RequestFault::UnsupportedEchoRequest(message_type)),
            );
        }
        Ok(
            TestEchoStatusResponseReadState {
                request_id,
                frames: 0,
                max_message_bytes: limits.max_message_bytes as usize,
            },
        )
    }

    /// Validates the one frame of the response.
    pub fn validate_frame(&mut self, frame: &Frame) -> (result: Result<(), OutboundRequestError>)
        ensures
            result == (if old(self).frames != 0 {
                Err::<(), OutboundRequestError>(
                    OutboundRequestError::Fatal(RequestFault::EchoTooManyFrames),
                )
            } else {
                match echo_frame_fault(*old(self), frame@) {
                    Some(fault) => Err(OutboundRequestError::Fatal(fault)),
                    None => Ok(()),
                }
            }),
            *final(self) == (if old(self).frames != 0 {
                *old(self)
            } else {
                TestEchoStatusResponseReadState { frames: 1, ..*old(self) }
            }),
    {
        if self.frames != 0 {
            return Err(OutboundRequestError::Fatal(RequestFault::EchoTooManyFrames));
        }
        self.frames = self.frames + 1;
        if frame.message_type != TEST_ECHO_STATUS_RESPONSE {
            return Err(
                OutboundRequestError::Fatal(RequestFault::EchoWrongType(frame.message_type)),
            );
        }
        if frame.flags != 0 {
            return Err(OutboundRequestError::Fatal(RequestFault::EchoFlags));
        }
        if frame.payload.len() > self.max_message_bytes {
            return Err(OutboundRequestError::Fatal(RequestFault::EchoOversize));
        }
        let got = match test_echo_status_response_payload(frame.payload.as_slice()) {
            Ok((got, _)) => got,
            Err(error) => {
                return Err(error);
            },
        };
        if got != self.request_id {
            return Err(
                OutboundRequestError::Fatal(
                    RequestFault::EchoWrongId { expected: self.request_id, got },
                ),
            );
        }
        Ok(())
    }

    /// Concludes the response: it must have had a frame.
    pub fn finish(&self) -> (result: Result<(), OutboundRequestError>)
        ensures
            result == (if self.frames == 0 {
                Err::<(), OutboundRequestError>(
                    OutboundRequestError::Fatal(RequestFault::EchoNoFrames),
                )
            } else {
                Ok(())
            }),
    {
        if self.frames == 0 {
            return Err(OutboundRequestError::Fatal(RequestFault::EchoNoFrames));
        }
        Ok(())
    }
}

/// The one frame of an echo/status response is accepted exactly where it is one: of the
/// response type, without flags, no larger than a message, and with the id of the request in
/// front.
pub proof fn law_echo_answers_are_accepted(
    state: TestEchoStatusResponseReadState,
    frame: FrameView,
)
    ensures
        echo_frame_fault(state, frame) is None <==> {
            &&& frame.message_type == TEST_ECHO_STATUS_RESPONSE
            &&& frame.flags == 0
            &&& 8 <= frame.payload.len() <= state.max_message_bytes
            &&& wire::le_u64(frame.payload) == state.request_id
        },
{
    assert(0 <= wire::le_u64(frame.payload) <= u64::MAX);
}

} // verus!
