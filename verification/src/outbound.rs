//! What can go wrong with an outbound request.

use vstd::prelude::*;

verus! {

/// What the response to a legacy request holds.
#[derive(Copy, Clone, Debug, PartialEq, Eq, Structural)]
pub enum LegacyResponseKind {
    /// Full blocks.
    Blocks,
    /// Full transactions.
    Transactions,
    /// Block hashes.
    BlockHashes,
    /// Block headers.
    BlockHeaders,
    /// Transaction ids.
    TransactionIds,
    /// An acknowledgement.
    Pong,
    /// Nothing.
    Nil,
}

/// Which part of a legacy response a fault is about.
#[derive(Copy, Clone, Debug, PartialEq, Eq, Structural)]
pub enum ResponsePart {
    /// A chunk of an item.
    Chunk,
    /// A list of items the peer does not have.
    Missing,
    /// A list of hashes or ids.
    List,
    /// A list of headers.
    Headers,
    /// An acknowledgement.
    Acknowledgement,
    /// The empty-result marker.
    Nil,
}

/// What is wrong with a request or its response.
#[derive(Copy, Clone, Debug, PartialEq, Eq, Structural)]
pub enum RequestFault {
    /// No requests are made on streams of this kind.
    UnsupportedStreamKind(u16),
    /// The echo/status service knows no such request.
    UnsupportedEchoRequest(u16),
    /// There is no such legacy request.
    UnsupportedLegacyRequest(u16),
    /// Responses of this kind hold no inventory.
    KindWithoutInventory,
    /// The stream could not be opened or written in time.
    WriteFailed,
    /// No response arrived in time.
    ResponseTimeout,
    /// The requester went away.
    ReceiverDropped,
    /// A response frame is larger than the connection allows.
    FrameOversize,
    /// The response could not be read.
    ReadFailed,
    /// An echo/status response has more than one frame.
    EchoTooManyFrames,
    /// An echo/status response has another type.
    EchoWrongType(u16),
    /// An echo/status response has flags.
    EchoFlags,
    /// An echo/status response is larger than a message may be.
    EchoOversize,
    /// An echo/status response is too short for its request id.
    EchoTruncated,
    /// An echo/status response answers another request.
    EchoWrongId {
        /// The request.
        expected: u64,
        /// The request that the response names.
        got: u64,
    },
    /// An echo/status response has no frame.
    EchoNoFrames,
    /// A legacy response has flags.
    UnsupportedFlags(u16),
    /// A legacy response has too many frames.
    TooManyFrames,
    /// A legacy response has too many bytes.
    ByteBudget,
    /// There is no such legacy response.
    UnknownResponseType(u16),
    /// The stream ended within an item.
    IncompleteChunk,
    /// The response is of another kind than the request asks for.
    KindMismatch(ResponsePart),
    /// The response answers another request.
    WrongId {
        /// The part of the response.
        part: ResponsePart,
        /// The request.
        expected: u64,
        /// The request that the response names.
        got: u64,
    },
    /// A chunk or list arrived within an item.
    Interleaved(ResponsePart),
    /// An item is larger than a message may be.
    ItemOversize,
    /// An item does not decode.
    MalformedItem,
    /// A response is too short for its request id.
    TruncatedId,
    /// A chunk is too short for its header.
    TruncatedChunk,
    /// An acknowledgement or empty-result marker carries more than its request id.
    UnexpectedBytes(ResponsePart),
    /// A response holds more items than were asked for.
    TooManyItems,
    /// A count is malformed or too large.
    MalformedCount,
    /// A list of block hashes is too long or too short for its count.
    BlockInventoryLength,
    /// An inventory item does not decode.
    MalformedInventory,
    /// A list of transactions holds something else.
    NonTransactionItem,
    /// A list has bytes after its last item.
    TrailingBytes,
    /// A list declares more headers than a message may hold.
    TooManyHeaders,
    /// A header does not decode.
    MalformedHeader,
}

/// Why an outbound request failed.
#[derive(Copy, Clone, Debug, PartialEq, Eq, Structural)]
pub enum OutboundRequestError {
    /// The request failed, and the connection goes on.
    Local(RequestFault),
    /// The peer violated the protocol, and the connection ends.
    Fatal(RequestFault),
}

} // verus!
