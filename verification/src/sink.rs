//! The application's end of inbound streams.

use crate::types::{Frame, ZakuraPeerId};
use vstd::prelude::*;

verus! {

/// Reason an [`InboundSink`] rejected a decoded frame.
#[derive(Debug)]
pub enum InboundSinkReject {
    /// The peer sent a protocol-invalid frame, so the connection closes.
    Protocol(String),
    /// Local sink state prevented delivery; the peer is not at fault.
    Local(String),
}

impl InboundSinkReject {
    /// A fatal peer-protocol rejection.
    pub fn protocol(error: String) -> (reject: Self)
        ensures
            reject == InboundSinkReject::Protocol(error),
    {
        InboundSinkReject::Protocol(error)
    }

    /// A non-fatal local-delivery rejection.
    pub fn local(error: String) -> (reject: Self)
        ensures
            reject == InboundSinkReject::Local(error),
    {
        InboundSinkReject::Local(error)
    }
}

/// Application sink for decoded inbound stream frames.
pub trait InboundSink {
    /// Delivers one decoded frame.
    fn deliver(&self, peer_id: ZakuraPeerId, stream_kind: u16, frame: Frame) -> Result<
        (),
        InboundSinkReject,
    >;

    /// Delivers one request frame and returns the frames of its response. A sink that
    /// takes no requests rejects them.
    fn request(
        &self,
        peer_id: ZakuraPeerId,
        stream_kind: u16,
        request_id: u64,
        max_frame_bytes: u32,
        frame: Frame,
    ) -> (response: Result<Vec<Frame>, InboundSinkReject>)
        default_ensures
            response matches Err(InboundSinkReject::Protocol(error)) && error@
                == "request streams are not supported by this inbound sink"@,
    {
        Err(
            InboundSinkReject::protocol(
                "request streams are not supported by this inbound sink".to_owned(),
            ),
        )
    }
}

/// A sink that takes every frame and does nothing with it.
#[derive(Copy, Clone, Debug)]
pub struct DropInboundSink;

impl InboundSink for DropInboundSink {
    fn deliver(&self, peer_id: ZakuraPeerId, stream_kind: u16, frame: Frame) -> (result: Result<
        (),
        InboundSinkReject,
    >)
        ensures
            result == Ok::<(), InboundSinkReject>(()),
    {
        Ok(())
    }
}

} // verus!
