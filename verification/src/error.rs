//! Errors of the protocol handler.

use vstd::prelude::*;

verus! {

/// Why a peer's bytes are not a well-formed Zakura message.
#[derive(Copy, Clone, Debug, PartialEq, Eq, Structural)]
pub enum ZakuraProtocolError {
    /// A message does not start with its magic bytes.
    InvalidMagic,
    /// A marker byte is neither zero nor one.
    InvalidFlag(u8),
}

/// Errors produced by the protocol handler.
#[derive(Copy, Clone, Debug, PartialEq, Eq, Structural)]
pub enum ZakuraHandlerError {
    /// A bounded read or write timed out.
    Timeout(HandlerStep),
    /// A peer-controlled payload exceeded its cap.
    Oversize,
    /// The peer closed the stream or connection.
    Closed,
    /// The configured bootstrap peer is malformed.
    InvalidBootstrapPeer,
    /// The configured secret key is malformed.
    InvalidSecretKey,
    /// Local limits violate an invariant.
    InvalidLocalLimits,
    /// A local resource cap rejected the operation.
    ResourceLimit(ResourceCap),
    /// The transport failed.
    Transport,
    /// A message is not well formed.
    Protocol(ZakuraProtocolError),
    /// A handshake message was not acceptable.
    Validation,
    /// The discovery exchange failed.
    Discovery(DiscoveryFault),
    /// A local source or buffer failed.
    Io,
}

/// A bounded step of the handler.
#[derive(Copy, Clone, Debug, PartialEq, Eq, Structural)]
pub enum HandlerStep {
    /// Accepting the control stream.
    AcceptControlStream,
    /// Opening the control stream.
    OpenControlStream,
    /// Reading a control payload.
    ControlRead,
    /// Writing a control payload.
    ControlWrite,
    /// Reading a stream prelude.
    Prelude,
    /// Reading a frame.
    FrameRead,
    /// Writing a frame.
    FrameWrite,
    /// Opening a stream.
    OpenStream,
    /// Waiting for the response to an outbound request.
    OutboundResponse,
    /// Connecting.
    Connect,
}

/// A local resource cap.
#[derive(Copy, Clone, Debug, PartialEq, Eq, Structural)]
pub enum ResourceCap {
    /// Concurrent control handshakes.
    PendingHandshake,
    /// Concurrent connections.
    Admission,
    /// Discovery messages per second.
    DiscoveryMessageRate,
}

/// Why a discovery exchange failed.
#[derive(Copy, Clone, Debug, PartialEq, Eq, Structural)]
pub enum DiscoveryFault {
    /// The frame is not a discovery frame.
    UnexpectedFrame {
        /// Its message type.
        message_type: u16,
        /// Its flags.
        flags: u16,
    },
    /// The payload does not decode.
    Malformed,
    /// The first message was not a hello.
    MissingHello,
    /// The hello is about another node.
    HelloIdentity,
    /// The record was not acceptable.
    Record,
    /// The message is not an answer to what was asked.
    UnexpectedMessage,
    /// The authenticated peer id is not a node id.
    PeerNodeId,
}

} // verus!
