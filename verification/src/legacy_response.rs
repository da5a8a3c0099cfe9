//! Validation of the response to a legacy request, frame by frame and within a budget.
//!
//! Blocks, transactions and headers are decoded by the caller: the validator asks for a
//! decode and takes its outcome.

use crate::inventory::{
    self, legacy_inventory_count, read_compact_size, reject_legacy_inventory_trailing,
    LEGACY_BLOCK_HASH_BYTES, LEGACY_INVENTORY_HASH_BYTES,
};
use crate::limits::ZakuraConnectionLimits;
use crate::outbound::{LegacyResponseKind, OutboundRequestError, RequestFault, ResponsePart};
use crate::types::{Frame, FrameView};
use crate::wire::{self, push_all, read_u64};
use vstd::prelude::*;

verus! {

/// Request for blocks by hash.
pub const LEGACY_REQUEST_BLOCKS_BY_HASH: u16 = 3;

/// Request for transactions by id.
pub const LEGACY_REQUEST_TRANSACTIONS_BY_ID: u16 = 4;

/// Request for block hashes after a locator.
pub const LEGACY_REQUEST_FIND_BLOCKS: u16 = 9;

/// Request for block headers after a locator.
pub const LEGACY_REQUEST_FIND_HEADERS: u16 = 10;

/// Request for the ids of mempool transactions.
pub const LEGACY_REQUEST_MEMPOOL_TRANSACTION_IDS: u16 = 11;

/// Liveness request.
pub const LEGACY_REQUEST_PING: u16 = 12;

/// Request to take a transaction.
pub const LEGACY_REQUEST_PUSH_TRANSACTION: u16 = 13;

/// A chunk of a block.
pub const LEGACY_RESPONSE_BLOCK: u16 = 5;

/// A chunk of a transaction.
pub const LEGACY_RESPONSE_TRANSACTION: u16 = 6;

/// The requested blocks that the peer does not have.
pub const LEGACY_RESPONSE_MISSING_BLOCKS: u16 = 7;

/// The requested transactions that the peer does not have.
pub const LEGACY_RESPONSE_MISSING_TRANSACTIONS: u16 = 8;

/// Block hashes.
pub const LEGACY_RESPONSE_BLOCK_HASHES: u16 = 14;

/// Block headers.
pub const LEGACY_RESPONSE_BLOCK_HEADERS: u16 = 15;

/// Transaction ids.
pub const LEGACY_RESPONSE_TRANSACTION_IDS: u16 = 16;

/// Liveness answer.
pub const LEGACY_RESPONSE_PONG: u16 = 17;

/// Empty result.
pub const LEGACY_RESPONSE_NIL: u16 = 18;

/// Bytes of the request id in front of every response.
pub const LEGACY_RESPONSE_REQUEST_ID_BYTES: usize = 8;

/// Bytes in front of a chunk: the request id and the last-chunk marker.
pub const LEGACY_RESPONSE_CHUNK_HEADER_BYTES: usize = 9;

/// The most bytes that a count takes.
pub const LEGACY_COMPACT_SIZE_PREFIX_BYTES: usize = 9;

/// The most frames that one item is spread over.
pub const LEGACY_RESPONSE_MAX_FRAMES_PER_ITEM: usize = 8;

/// The most inventory items in one message.
pub const MAX_TX_INV_IN_SENT_MESSAGE: usize = 25_000;

/// The most headers in one message.
pub const MAX_HEADERS_PER_MESSAGE: usize = 160;

/// `value`, capped at the largest size.
pub open spec fn sat(value: int) -> int {
    if value > usize::MAX {
        usize::MAX as int
    } else {
        value
    }
}

/// `a * b`, capped at the largest size.
fn sat_mul(a: usize, b: usize) -> (product: usize)
    ensures
        product == sat(a * b),
{
    match a.checked_mul(b) {
        Some(product) => product,
        None => usize::MAX,
    }
}

/// What the response to a request may hold.
#[derive(Copy, Clone, Debug, PartialEq, Eq, Structural)]
pub struct LegacyResponseBudget {
    /// What the response holds.
    pub kind: LegacyResponseKind,
    /// The most items.
    pub max_items: usize,
    /// The most frames.
    pub max_frames: usize,
    /// The most payload bytes over all frames.
    pub max_bytes: usize,
    /// The most bytes of one item.
    pub max_message_bytes: usize,
}

/// The kind of response that a request asks for.
pub open spec fn kind_of_request(message_type: u16) -> Option<LegacyResponseKind> {
    if message_type == LEGACY_REQUEST_BLOCKS_BY_HASH {
        Some(LegacyResponseKind::Blocks)
    } else if message_type == LEGACY_REQUEST_TRANSACTIONS_BY_ID {
        Some(LegacyResponseKind::Transactions)
    } else if message_type == LEGACY_REQUEST_FIND_BLOCKS {
        Some(LegacyResponseKind::BlockHashes)
    } else if message_type == LEGACY_REQUEST_FIND_HEADERS {
        Some(LegacyResponseKind::BlockHeaders)
    } else if message_type == LEGACY_REQUEST_MEMPOOL_TRANSACTION_IDS {
        Some(LegacyResponseKind::TransactionIds)
    } else if message_type == LEGACY_REQUEST_PING {
        Some(LegacyResponseKind::Pong)
    } else if message_type == LEGACY_REQUEST_PUSH_TRANSACTION {
        Some(LegacyResponseKind::Nil)
    } else {
        None
    }
}

/// Bytes of a list of `count` items of `item_bytes` bytes, with its request id and count.
pub open spec fn list_bytes(count: int, item_bytes: int) -> int {
    sat(
        LEGACY_RESPONSE_REQUEST_ID_BYTES + LEGACY_COMPACT_SIZE_PREFIX_BYTES + sat(
            count * item_bytes,
        ),
    )
}

/// The budget of a response of `kind` to a request for `requested` items.
///
/// Requested items may come in eight frames each, and each may be as large as a message;
/// a further list may name the items that are missing.
pub open spec fn budget_of(
    kind: LegacyResponseKind,
    requested: int,
    max_message_bytes: int,
) -> LegacyResponseBudget {
    let (max_items, max_frames, max_bytes) = match kind {
        LegacyResponseKind::Blocks => (
            requested,
            sat(sat(requested * LEGACY_RESPONSE_MAX_FRAMES_PER_ITEM) + 1),
            sat(
                sat(requested * max_message_bytes) + list_bytes(
                    requested,
                    LEGACY_BLOCK_HASH_BYTES as int,
                ),
            ),
        ),
        LegacyResponseKind::Transactions => (
            requested,
            sat(sat(requested * LEGACY_RESPONSE_MAX_FRAMES_PER_ITEM) + 1),
            sat(
                sat(requested * max_message_bytes) + list_bytes(
                    requested,
                    LEGACY_INVENTORY_HASH_BYTES as int,
                ),
            ),
        ),
        LegacyResponseKind::BlockHashes => (
            MAX_TX_INV_IN_SENT_MESSAGE as int,
            1,
            list_bytes(MAX_TX_INV_IN_SENT_MESSAGE as int, LEGACY_BLOCK_HASH_BYTES as int),
        ),
        LegacyResponseKind::BlockHeaders => (
            MAX_HEADERS_PER_MESSAGE as int,
            1,
            sat(LEGACY_RESPONSE_REQUEST_ID_BYTES + max_message_bytes),
        ),
        LegacyResponseKind::TransactionIds => (
            MAX_TX_INV_IN_SENT_MESSAGE as int,
            1,
            list_bytes(MAX_TX_INV_IN_SENT_MESSAGE as int, LEGACY_INVENTORY_HASH_BYTES as int),
        ),
        LegacyResponseKind::Pong | LegacyResponseKind::Nil => (
            1int,
            1int,
            LEGACY_RESPONSE_REQUEST_ID_BYTES as int,
        ),
    };
    LegacyResponseBudget {
        kind,
        max_items: max_items as usize,
        max_frames: max_frames as usize,
        max_bytes: max_bytes as usize,
        max_message_bytes: max_message_bytes as usize,
    }
}

/// The budget of the response to a request, or why the request cannot be made.
pub open spec fn request_budget(
    message_type: u16,
    payload: Seq<u8>,
    max_message_bytes: u32,
) -> Result<LegacyResponseBudget, OutboundRequestError> {
    match kind_of_request(message_type) {
        None => Err(
            OutboundRequestError::Local(RequestFault::UnsupportedLegacyRequest(message_type)),
        ),
        Some(kind) => if kind == LegacyResponseKind::Blocks || kind
            == LegacyResponseKind::Transactions {
            match inventory::inventory_count(payload, kind) {
                Err(error) => Err(error),
                Ok(count) => Ok(budget_of(kind, count, max_message_bytes as int)),
            }
        } else {
            Ok(budget_of(kind, 0, max_message_bytes as int))
        },
    }
}

impl LegacyResponseBudget {
    /// The budget of the response to a request.
    pub fn from_request(
        message_type: u16,
        payload: &[u8],
        limits: &ZakuraConnectionLimits,
    ) -> (budget: Result<Self, OutboundRequestError>)
        ensures
            budget == request_budget(message_type, payload@, limits.max_message_bytes),
    {
        let kind = if message_type == LEGACY_REQUEST_BLOCKS_BY_HASH {
            LegacyResponseKind::Blocks
        } else if message_type == LEGACY_REQUEST_TRANSACTIONS_BY_ID {
            LegacyResponseKind::Transactions
        } else if message_type == LEGACY_REQUEST_FIND_BLOCKS {
            LegacyResponseKind::BlockHashes
        } else if message_type == LEGACY_REQUEST_FIND_HEADERS {
            LegacyResponseKind::BlockHeaders
        } else if message_type == LEGACY_REQUEST_MEMPOOL_TRANSACTION_IDS {
            LegacyResponseKind::TransactionIds
        } else if message_type == LEGACY_REQUEST_PING {
            LegacyResponseKind::Pong
        } else if message_type == LEGACY_REQUEST_PUSH_TRANSACTION {
            LegacyResponseKind::Nil
        } else {
            return Err(
                OutboundRequestError::Local(RequestFault::UnsupportedLegacyRequest(message_type)),
            );
        };
        let max_message_bytes: usize = limits.max_message_bytes as usize;
        let prefix: usize = LEGACY_RESPONSE_REQUEST_ID_BYTES + LEGACY_COMPACT_SIZE_PREFIX_BYTES;
        let (max_items, max_frames, max_bytes): (usize, usize, usize) = match kind {
            LegacyResponseKind::Blocks | LegacyResponseKind::Transactions => {
                let item_count: usize = match legacy_inventory_count(payload, kind) {
                    Ok(count) => count,
                    Err(error) => {
                        return Err(error);
                    },
                };
                let max_frames: usize = sat_mul(
                    item_count,
                    LEGACY_RESPONSE_MAX_FRAMES_PER_ITEM,
                ).saturating_add(1);
                let item_bytes: usize = match kind {
                    LegacyResponseKind::Blocks => LEGACY_BLOCK_HASH_BYTES,
                    _ => LEGACY_INVENTORY_HASH_BYTES,
                };
                let missing_bytes: usize = prefix.saturating_add(sat_mul(item_count, item_bytes));
                let max_bytes: usize = sat_mul(item_count, max_message_bytes).saturating_add(
                    missing_bytes,
                );
                (item_count, max_frames, max_bytes)
            },
            LegacyResponseKind::BlockHashes => {
                let max_bytes: usize = prefix.saturating_add(
                    sat_mul(MAX_TX_INV_IN_SENT_MESSAGE, LEGACY_BLOCK_HASH_BYTES),
                );
                (MAX_TX_INV_IN_SENT_MESSAGE, 1, max_bytes)
            },
            LegacyResponseKind::BlockHeaders => (
                MAX_HEADERS_PER_MESSAGE,
                1,
                LEGACY_RESPONSE_REQUEST_ID_BYTES.saturating_add(max_message_bytes),
            ),
            LegacyResponseKind::TransactionIds => {
                let max_bytes: usize = prefix.saturating_add(
                    sat_mul(MAX_TX_INV_IN_SENT_MESSAGE, LEGACY_INVENTORY_HASH_BYTES),
                );
                (MAX_TX_INV_IN_SENT_MESSAGE, 1, max_bytes)
            },
            LegacyResponseKind::Pong | LegacyResponseKind::Nil => (
                1,
                1,
                LEGACY_RESPONSE_REQUEST_ID_BYTES,
            ),
        };
        Ok(LegacyResponseBudget { kind, max_items, max_frames, max_bytes, max_message_bytes })
    }
}

/// The request id and the rest of a response.
pub open spec fn response_id(payload: Seq<u8>) -> Result<(u64, Seq<u8>), OutboundRequestError> {
    if payload.len() < LEGACY_RESPONSE_REQUEST_ID_BYTES {
        Err(OutboundRequestError::Fatal(RequestFault::TruncatedId))
    } else {
        Ok((wire::le_u64(payload) as u64, payload.skip(8)))
    }
}

/// Splits the request id off a response.
pub fn legacy_response_id(payload: &[u8]) -> (split: Result<(u64, &[u8]), OutboundRequestError>)
    ensures
        match split {
            Ok((id, rest)) => response_id(payload@) == Ok::<
                (u64, Seq<u8>),
                OutboundRequestError,
            >((id, rest@)),
            Err(error) => response_id(payload@) == Err::<(u64, Seq<u8>), OutboundRequestError>(
                error,
            ),
        },
{
    if payload.len() < LEGACY_RESPONSE_REQUEST_ID_BYTES {
        return Err(OutboundRequestError::Fatal(RequestFault::TruncatedId));
    }
    let rest = vstd::slice::slice_subrange(payload, 8, payload.len());
    assert(rest@ =~= payload@.skip(8));
    Ok((read_u64(payload), rest))
}

/// The request id, the last-chunk marker and the bytes of a chunk.
pub open spec fn chunk_header(payload: Seq<u8>) -> Result<
    (u64, bool, Seq<u8>),
    OutboundRequestError,
> {
    if payload.len() < LEGACY_RESPONSE_CHUNK_HEADER_BYTES {
        Err(OutboundRequestError::Fatal(RequestFault::TruncatedChunk))
    } else {
        Ok((wire::le_u64(payload) as u64, payload[8] != 0, payload.skip(9)))
    }
}

/// Splits the header off a chunk.
pub fn legacy_response_chunk_header(payload: &[u8]) -> (split: Result<
    (u64, bool, &[u8]),
    OutboundRequestError,
>)
    ensures
        match split {
            Ok((id, last, bytes)) => chunk_header(payload@) == Ok::<
                (u64, bool, Seq<u8>),
                OutboundRequestError,
            >((id, last, bytes@)),
            Err(error) => chunk_header(payload@) == Err::<
                (u64, bool, Seq<u8>),
                OutboundRequestError,
            >(error),
        },
{
    if payload.len() < LEGACY_RESPONSE_CHUNK_HEADER_BYTES {
        return Err(OutboundRequestError::Fatal(RequestFault::TruncatedChunk));
    }
    let bytes = vstd::slice::slice_subrange(payload, 9, payload.len());
    assert(bytes@ =~= payload@.skip(9));
    Ok((read_u64(payload), payload[8] != 0, bytes))
}

/// What is to be done with a frame that passed so far.
#[derive(Copy, Clone, Debug, PartialEq, Eq, Structural)]
pub enum FrameStep {
    /// The frame is accepted.
    Accepted,
    /// The frame completes an item: decode the assembled bytes.
    DecodeItem(LegacyResponseKind),
    /// The frame lists headers: decode `count` of them from `offset` of the payload.
    DecodeHeaders {
        /// Number of headers.
        count: usize,
        /// Where the first one starts.
        offset: usize,
    },
}

/// How far a response has been read.
#[derive(Debug)]
pub struct LegacyResponseReadState {
    /// What the response may hold.
    pub budget: LegacyResponseBudget,
    /// Frames so far.
    pub frames: usize,
    /// Payload bytes so far.
    pub bytes: usize,
    /// Items so far.
    pub items: usize,
    /// Message type of the item that is being assembled.
    pub active_chunk_type: Option<u16>,
    /// Bytes of the item that is being assembled.
    pub active_chunk: Vec<u8>,
}

/// How far a response has been read, with the assembled bytes as a sequence.
#[verifier::ext_equal]
pub struct LegacyReadView {
    /// What the response may hold.
    pub budget: LegacyResponseBudget,
    /// Frames so far.
    pub frames: usize,
    /// Payload bytes so far.
    pub bytes: usize,
    /// Items so far.
    pub items: usize,
    /// Message type of the item that is being assembled.
    pub chunk_type: Option<u16>,
    /// Bytes of the item that is being assembled.
    pub chunk: Seq<u8>,
}

impl View for LegacyResponseReadState {
    type V = LegacyReadView;

    open spec fn view(&self) -> LegacyReadView {
        LegacyReadView {
            budget: self.budget,
            frames: self.frames,
            bytes: self.bytes,
            items: self.items,
            chunk_type: self.active_chunk_type,
            chunk: self.active_chunk@,
        }
    }
}

/// The outcome of a step together with the state after it.
pub type Outcome<T> = (Result<T, OutboundRequestError>, LegacyReadView);

impl LegacyReadView {
    /// Nothing has been read beyond the budget.
    pub open spec fn within_budget(self) -> bool {
        &&& self.frames <= self.budget.max_frames
        &&& self.bytes <= self.budget.max_bytes
        &&& self.items <= self.budget.max_items
        &&& self.chunk.len() <= self.budget.max_message_bytes
    }

    /// `count` more items.
    pub open spec fn items_added(self, count: int) -> Outcome<()> {
        let items = sat(self.items + count);
        let after = LegacyReadView { items: items as usize, ..self };
        if items > self.budget.max_items {
            (Err(OutboundRequestError::Fatal(RequestFault::TooManyItems)), after)
        } else {
            (Ok(()), after)
        }
    }

    /// The payload of a response part after its request id, if the part may come now.
    pub open spec fn begun(
        self,
        kind: LegacyResponseKind,
        request_id: u64,
        payload: Seq<u8>,
        part: ResponsePart,
    ) -> Result<Seq<u8>, OutboundRequestError> {
        if self.budget.kind != kind {
            Err(OutboundRequestError::Fatal(RequestFault::KindMismatch(part)))
        } else if self.chunk_type is Some {
            Err(OutboundRequestError::Fatal(RequestFault::Interleaved(part)))
        } else {
            match response_id(payload) {
                Err(error) => Err(error),
                Ok((got, rest)) => if got != request_id {
                    Err(
                        OutboundRequestError::Fatal(
                            RequestFault::WrongId { part, expected: request_id, got },
                        ),
                    )
                } else {
                    Ok(rest)
                },
            }
        }
    }

    /// A list of inventory items.
    pub open spec fn list_read(
        self,
        kind: LegacyResponseKind,
        request_id: u64,
        payload: Seq<u8>,
        part: ResponsePart,
    ) -> Outcome<()> {
        match self.begun(kind, request_id, payload, part) {
            Err(error) => (Err(error), self),
            Ok(rest) => match inventory::inventory_count(rest, kind) {
                Err(error) => (Err(error), self),
                Ok(count) => self.items_added(count),
            },
        }
    }

    /// An acknowledgement, which carries nothing but the request id.
    pub open spec fn acknowledgement_read(
        self,
        kind: LegacyResponseKind,
        request_id: u64,
        payload: Seq<u8>,
    ) -> Outcome<()> {
        match self.begun(kind, request_id, payload, ResponsePart::Acknowledgement) {
            Err(error) => (Err(error), self),
            Ok(rest) => if rest.len() != 0 {
                (
                    Err(
                        OutboundRequestError::Fatal(
                            RequestFault::UnexpectedBytes(ResponsePart::Acknowledgement),
                        ),
                    ),
                    self,
                )
            } else {
                self.items_added(1)
            },
        }
    }

    /// The empty-result marker, which answers a request of any kind. It counts as an item,
    /// but for a request of nothing, which has none to count.
    pub open spec fn nil_read(self, request_id: u64, payload: Seq<u8>) -> Outcome<()> {
        if self.chunk_type is Some {
            (
                Err(OutboundRequestError::Fatal(RequestFault::Interleaved(ResponsePart::Nil))),
                self,
            )
        } else {
            match response_id(payload) {
                Err(error) => (Err(error), self),
                Ok((got, rest)) => if got != request_id {
                    (
                        Err(
                            OutboundRequestError::Fatal(
                                RequestFault::WrongId {
                                    part: ResponsePart::Nil,
                                    expected: request_id,
                                    got,
                                },
                            ),
                        ),
                        self,
                    )
                } else if rest.len() != 0 {
                    (
                        Err(
                            OutboundRequestError::Fatal(
                                RequestFault::UnexpectedBytes(ResponsePart::Nil),
                            ),
                        ),
                        self,
                    )
                } else if self.items == 0 && self.budget.max_items == 0 {
                    (Ok(()), self)
                } else {
                    self.items_added(1)
                },
            }
        }
    }

    /// A list of headers, up to the headers themselves.
    pub open spec fn headers_read(self, request_id: u64, payload: Seq<u8>) -> Result<
        FrameStep,
        OutboundRequestError,
    > {
        match self.begun(
            LegacyResponseKind::BlockHeaders,
            request_id,
            payload,
            ResponsePart::Headers,
        ) {
            Err(error) => Err(error),
            Ok(rest) => match inventory::compact_size(rest) {
                None => Err(OutboundRequestError::Fatal(RequestFault::MalformedCount)),
                Some((count, used)) => if count > MAX_HEADERS_PER_MESSAGE {
                    Err(OutboundRequestError::Fatal(RequestFault::TooManyHeaders))
                } else {
                    Ok(
                        FrameStep::DecodeHeaders {
                            count: count as usize,
                            offset: (LEGACY_RESPONSE_REQUEST_ID_BYTES + used) as usize,
                        },
                    )
                },
            },
        }
    }

    /// The headers of a list were decoded up to `end`, or one of them does not decode.
    pub open spec fn headers_decoded(self, payload_len: nat, count: int, end: Option<usize>) -> Outcome<
        (),
    > {
        match end {
            None => (Err(OutboundRequestError::Fatal(RequestFault::MalformedHeader)), self),
            Some(end) => if end != payload_len {
                (Err(OutboundRequestError::Fatal(RequestFault::TrailingBytes)), self)
            } else {
                self.items_added(count)
            },
        }
    }

    /// A chunk of an item.
    pub open spec fn chunk_read(
        self,
        kind: LegacyResponseKind,
        request_id: u64,
        message_type: u16,
        payload: Seq<u8>,
    ) -> Outcome<FrameStep> {
        if self.budget.kind != kind {
            (
                Err(OutboundRequestError::Fatal(RequestFault::KindMismatch(ResponsePart::Chunk))),
                self,
            )
        } else {
            match chunk_header(payload) {
                Err(error) => (Err(error), self),
                Ok((got, last, bytes)) => {
                    let active = LegacyReadView { chunk_type: Some(message_type), ..self };
                    if got != request_id {
                        (
                            Err(
                                OutboundRequestError::Fatal(
                                    RequestFault::WrongId {
                                        part: ResponsePart::Chunk,
                                        expected: request_id,
                                        got,
                                    },
                                ),
                            ),
                            self,
                        )
                    } else if self.chunk_type is Some && self.chunk_type != Some(message_type) {
                        (
                            Err(
                                OutboundRequestError::Fatal(
                                    RequestFault::Interleaved(ResponsePart::Chunk),
                                ),
                            ),
                            self,
                        )
                    } else if self.chunk.len() + bytes.len() > self.budget.max_message_bytes {
                        (Err(OutboundRequestError::Fatal(RequestFault::ItemOversize)), active)
                    } else {
                        let grown = LegacyReadView { chunk: self.chunk + bytes, ..active };
                        (
                            Ok(
                                if last {
                                    FrameStep::DecodeItem(kind)
                                } else {
                                    FrameStep::Accepted
                                },
                            ),
                            grown,
                        )
                    }
                },
            }
        }
    }

    /// The assembled item was decoded, or does not decode.
    pub open spec fn item_decoded(self, valid: bool) -> Outcome<()> {
        if !valid {
            (Err(OutboundRequestError::Fatal(RequestFault::MalformedItem)), self)
        } else {
            LegacyReadView { chunk_type: None, chunk: Seq::empty(), ..self }.items_added(1)
        }
    }

    /// A frame by its message type, once its size was accounted for.
    pub open spec fn typed_frame_read(self, request_id: u64, frame: FrameView) -> Outcome<
        FrameStep,
    > {
        let payload = frame.payload;
        let message_type = frame.message_type;
        let accepted = |outcome: Outcome<()>|
            match outcome.0 {
                Ok(_) => (Ok(FrameStep::Accepted), outcome.1),
                Err(error) => (Err::<FrameStep, OutboundRequestError>(error), outcome.1),
            };
        if message_type == LEGACY_RESPONSE_BLOCK {
            self.chunk_read(LegacyResponseKind::Blocks, request_id, message_type, payload)
        } else if message_type == LEGACY_RESPONSE_TRANSACTION {
            self.chunk_read(LegacyResponseKind::Transactions, request_id, message_type, payload)
        } else if message_type == LEGACY_RESPONSE_MISSING_BLOCKS {
            accepted(
                self.list_read(
                    LegacyResponseKind::Blocks,
                    request_id,
                    payload,
                    ResponsePart::Missing,
                ),
            )
        } else if message_type == LEGACY_RESPONSE_MISSING_TRANSACTIONS {
            accepted(
                self.list_read(
                    LegacyResponseKind::Transactions,
                    request_id,
                    payload,
                    ResponsePart::Missing,
                ),
            )
        } else if message_type == LEGACY_RESPONSE_BLOCK_HASHES {
            accepted(
                self.list_read(
                    LegacyResponseKind::BlockHashes,
                    request_id,
                    payload,
                    ResponsePart::List,
                ),
            )
        } else if message_type == LEGACY_RESPONSE_BLOCK_HEADERS {
            (self.headers_read(request_id, payload), self)
        } else if message_type == LEGACY_RESPONSE_TRANSACTION_IDS {
            accepted(
                self.list_read(
                    LegacyResponseKind::TransactionIds,
                    request_id,
                    payload,
                    ResponsePart::List,
                ),
            )
        } else if message_type == LEGACY_RESPONSE_PONG {
            accepted(self.acknowledgement_read(LegacyResponseKind::Pong, request_id, payload))
        } else if message_type == LEGACY_RESPONSE_NIL {
            accepted(self.nil_read(request_id, payload))
        } else {
            (
                Err(OutboundRequestError::Fatal(RequestFault::UnknownResponseType(message_type))),
                self,
            )
        }
    }

    /// A frame of the response.
    pub open spec fn frame_read(self, request_id: u64, frame: FrameView) -> Outcome<FrameStep> {
        let one_more = LegacyReadView { frames: sat(self.frames + 1) as usize, ..self };
        let counted = LegacyReadView {
            bytes: sat(self.bytes + frame.payload.len()) as usize,
            ..one_more
        };
        if frame.flags != 0 {
            (Err(OutboundRequestError::Fatal(RequestFault::UnsupportedFlags(frame.flags))), self)
        } else if one_more.frames > self.budget.max_frames {
            (Err(OutboundRequestError::Fatal(RequestFault::TooManyFrames)), one_more)
        } else if counted.bytes > self.budget.max_bytes {
            (Err(OutboundRequestError::Fatal(RequestFault::ByteBudget)), counted)
        } else {
            counted.typed_frame_read(request_id, frame)
        }
    }
}

/// The accepting step of an outcome without one.
fn accept(result: Result<(), OutboundRequestError>) -> (step: Result<
    FrameStep,
    OutboundRequestError,
>)
    ensures
        step == (match result {
            Ok(()) => Ok::<FrameStep, OutboundRequestError>(FrameStep::Accepted),
            Err(error) => Err(error),
        }),
{
    match result {
        Ok(()) => Ok(FrameStep::Accepted),
        Err(error) => Err(error),
    }
}

impl LegacyResponseReadState {
    /// A response of which nothing has been read.
    pub fn new(budget: LegacyResponseBudget) -> (state: Self)
        ensures
            state@ == (LegacyReadView {
                budget,
                frames: 0,
                bytes: 0,
                items: 0,
                chunk_type: None,
                chunk: Seq::empty(),
            }),
            state@.within_budget(),
    {
        LegacyResponseReadState {
            budget,
            frames: 0,
            bytes: 0,
            items: 0,
            active_chunk_type: None,
            active_chunk: Vec::new(),
        }
    }

    /// Validates the next frame of the response.
    pub fn validate_frame(&mut self, request_id: u64, frame: &Frame) -> (step: Result<
        FrameStep,
        OutboundRequestError,
    >)
        ensures
            (step, final(self)@) == old(self)@.frame_read(request_id, frame@),
    {
        if frame.flags != 0 {
            return Err(
                OutboundRequestError::Fatal(RequestFault::UnsupportedFlags(frame.flags)),
            );
        }
        self.frames = self.frames.saturating_add(1);
        if self.frames > self.budget.max_frames {
            return Err(OutboundRequestError::Fatal(RequestFault::TooManyFrames));
        }
        self.bytes = self.bytes.saturating_add(frame.payload.len());
        if self.bytes > self.budget.max_bytes {
            return Err(OutboundRequestError::Fatal(RequestFault::ByteBudget));
        }
        let message_type = frame.message_type;
        let payload = frame.payload.as_slice();
        if message_type == LEGACY_RESPONSE_BLOCK {
            self.validate_available_chunk(request_id, frame, LegacyResponseKind::Blocks)
        } else if message_type == LEGACY_RESPONSE_TRANSACTION {
            self.validate_available_chunk(request_id, frame, LegacyResponseKind::Transactions)
        } else if message_type == LEGACY_RESPONSE_MISSING_BLOCKS {
            accept(self.validate_missing(request_id, payload, LegacyResponseKind::Blocks))
        } else if message_type == LEGACY_RESPONSE_MISSING_TRANSACTIONS {
            accept(self.validate_missing(request_id, payload, LegacyResponseKind::Transactions))
        } else if message_type == LEGACY_RESPONSE_BLOCK_HASHES {
            accept(
                self.validate_id_prefixed_hashes(
                    request_id,
                    payload,
                    LegacyResponseKind::BlockHashes,
                ),
            )
        } else if message_type == LEGACY_RESPONSE_BLOCK_HEADERS {
            self.validate_headers(request_id, payload)
        } else if message_type == LEGACY_RESPONSE_TRANSACTION_IDS {
            accept(
                self.validate_id_prefixed_hashes(
                    request_id,
                    payload,
                    LegacyResponseKind::TransactionIds,
                ),
            )
        } else if message_type == LEGACY_RESPONSE_PONG {
            accept(self.validate_id_only(request_id, payload, LegacyResponseKind::Pong))
        } else if message_type == LEGACY_RESPONSE_NIL {
            accept(self.validate_nil(request_id, payload))
        } else {
            Err(OutboundRequestError::Fatal(RequestFault::UnknownResponseType(message_type)))
        }
    }

    /// Concludes the response: it must not end within an item.
    pub fn finish(&self) -> (result: Result<(), OutboundRequestError>)
        ensures
            result == (if self@.chunk_type is Some {
                Err::<(), OutboundRequestError>(
                    OutboundRequestError::Fatal(RequestFault::IncompleteChunk),
                )
            } else {
                Ok(())
            }),
    {
        if self.active_chunk_type.is_some() {
            return Err(OutboundRequestError::Fatal(RequestFault::IncompleteChunk));
        }
        Ok(())
    }

    /// Takes a chunk of an item. Chunks of one item may not be interleaved with anything
    /// else, and together stay within a message.
    pub fn validate_available_chunk(
        &mut self,
        request_id: u64,
        frame: &Frame,
        kind: LegacyResponseKind,
    ) -> (step: Result<FrameStep, OutboundRequestError>)
        ensures
            (step, final(self)@) == old(self)@.chunk_read(
                kind,
                request_id,
                frame@.message_type,
                frame@.payload,
            ),
    {
        if self.budget.kind != kind {
            return Err(
                OutboundRequestError::Fatal(RequestFault::KindMismatch(ResponsePart::Chunk)),
            );
        }
        let (got, is_last, bytes) = match legacy_response_chunk_header(frame.payload.as_slice()) {
            Ok(header) => header,
            Err(error) => {
                return Err(error);
            },
        };
        if got != request_id {
            return Err(
                OutboundRequestError::Fatal(
                    RequestFault::WrongId {
                        part: ResponsePart::Chunk,
                        expected: request_id,
                        got,
                    },
                ),
            );
        }
        match self.active_chunk_type {
            Some(active) => {
                if active != frame.message_type {
                    return Err(
                        OutboundRequestError::Fatal(RequestFault::Interleaved(ResponsePart::Chunk)),
                    );
                }
            },
            None => {
                self.active_chunk_type = Some(frame.message_type);
            },
        }
        let new_len: usize = self.active_chunk.len().saturating_add(bytes.len());
        if new_len > self.budget.max_message_bytes || bytes.len() > usize::MAX
            - self.active_chunk.len() {
            return Err(OutboundRequestError::Fatal(RequestFault::ItemOversize));
        }
        push_all(&mut self.active_chunk, bytes);
        if is_last {
            Ok(FrameStep::DecodeItem(kind))
        } else {
            Ok(FrameStep::Accepted)
        }
    }

    /// Takes the outcome of decoding the assembled item.
    pub fn validate_completed_item(&mut self, valid: bool) -> (result: Result<
        (),
        OutboundRequestError,
    >)
        ensures
            (result, final(self)@) == old(self)@.item_decoded(valid),
    {
        if !valid {
            return Err(OutboundRequestError::Fatal(RequestFault::MalformedItem));
        }
        self.active_chunk_type = None;
        self.active_chunk.clear();
        self.add_items(1)
    }

    /// Takes a list of the requested items that the peer does not have.
    pub fn validate_missing(
        &mut self,
        request_id: u64,
        payload: &[u8],
        kind: LegacyResponseKind,
    ) -> (result: Result<(), OutboundRequestError>)
        ensures
            (result, final(self)@) == old(self)@.list_read(
                kind,
                request_id,
                payload@,
                ResponsePart::Missing,
            ),
    {
        let rest = match self.begin_id_prefixed_response(
            kind,
            request_id,
            payload,
            ResponsePart::Missing,
        ) {
            Ok(rest) => rest,
            Err(error) => {
                return Err(error);
            },
        };
        match legacy_inventory_count(rest, kind) {
            Ok(count) => self.add_items(count),
            Err(error) => Err(error),
        }
    }

    /// Takes a list of hashes or ids.
    pub fn validate_id_prefixed_hashes(
        &mut self,
        request_id: u64,
        payload: &[u8],
        kind: LegacyResponseKind,
    ) -> (result: Result<(), OutboundRequestError>)
        ensures
            (result, final(self)@) == old(self)@.list_read(
                kind,
                request_id,
                payload@,
                ResponsePart::List,
            ),
    {
        let rest = match self.begin_id_prefixed_response(
            kind,
            request_id,
            payload,
            ResponsePart::List,
        ) {
            Ok(rest) => rest,
            Err(error) => {
                return Err(error);
            },
        };
        match legacy_inventory_count(rest, kind) {
            Ok(count) => self.add_items(count),
            Err(error) => Err(error),
        }
    }

    /// Takes a list of headers, up to the headers themselves.
    pub fn validate_headers(&self, request_id: u64, payload: &[u8]) -> (step: Result<
        FrameStep,
        OutboundRequestError,
    >)
        ensures
            step == self@.headers_read(request_id, payload@),
    {
        let rest = match self.begin_id_prefixed_response(
            LegacyResponseKind::BlockHeaders,
            request_id,
            payload,
            ResponsePart::Headers,
        ) {
            Ok(rest) => rest,
            Err(error) => {
                return Err(error);
            },
        };
        match read_compact_size(rest) {
            None => Err(OutboundRequestError::Fatal(RequestFault::MalformedCount)),
            Some((count, used)) => {
                if count > MAX_HEADERS_PER_MESSAGE {
                    return Err(OutboundRequestError::Fatal(RequestFault::TooManyHeaders));
                }
                assert(used <= 9);
                Ok(
                    FrameStep::DecodeHeaders {
                        count,
                        offset: LEGACY_RESPONSE_REQUEST_ID_BYTES + used,
                    },
                )
            },
        }
    }

    /// Takes the outcome of decoding the headers of a list: where the last one ends, or
    /// that one of them does not decode.
    pub fn legacy_header_count(
        &mut self,
        payload: &[u8],
        count: usize,
        end: Option<usize>,
    ) -> (result: Result<(), OutboundRequestError>)
        ensures
            (result, final(self)@) == old(self)@.headers_decoded(
                payload@.len(),
                count as int,
                end,
            ),
    {
        let end: usize = match end {
            Some(end) => end,
            None => {
                return Err(OutboundRequestError::Fatal(RequestFault::MalformedHeader));
            },
        };
        match reject_legacy_inventory_trailing(payload, end) {
            Ok(()) => self.add_items(count),
            Err(error) => Err(error),
        }
    }

    /// Takes an acknowledgement, which carries nothing but the request id.
    pub fn validate_id_only(
        &mut self,
        request_id: u64,
        payload: &[u8],
        kind: LegacyResponseKind,
    ) -> (result: Result<(), OutboundRequestError>)
        ensures
            (result, final(self)@) == old(self)@.acknowledgement_read(kind, request_id, payload@),
    {
        let rest = match self.begin_id_prefixed_response(
            kind,
            request_id,
            payload,
            ResponsePart::Acknowledgement,
        ) {
            Ok(rest) => rest,
            Err(error) => {
                return Err(error);
            },
        };
        if rest.len() != 0 {
            return Err(
                OutboundRequestError::Fatal(
                    RequestFault::UnexpectedBytes(ResponsePart::Acknowledgement),
                ),
            );
        }
        self.add_items(1)
    }

    /// Takes the empty-result marker, which answers a request of any kind, one of nothing
    /// included.
    pub fn validate_nil(&mut self, request_id: u64, payload: &[u8]) -> (result: Result<
        (),
        OutboundRequestError,
    >)
        ensures
            (result, final(self)@) == old(self)@.nil_read(request_id, payload@),
    {
        if self.active_chunk_type.is_some() {
            return Err(OutboundRequestError::Fatal(RequestFault::Interleaved(ResponsePart::Nil)));
        }
        let (got, rest) = match legacy_response_id(payload) {
            Ok(split) => split,
            Err(error) => {
                return Err(error);
            },
        };
        if got != request_id {
            return Err(
                OutboundRequestError::Fatal(
                    RequestFault::WrongId { part: ResponsePart::Nil, expected: request_id, got },
                ),
            );
        }
        if rest.len() != 0 {
            return Err(
                OutboundRequestError::Fatal(RequestFault::UnexpectedBytes(ResponsePart::Nil)),
            );
        }
        if self.items == 0 && self.budget.max_items == 0 {
            return Ok(());
        }
        self.add_items(1)
    }

    /// Checks that a part of the response may come now and answers the request, and
    /// returns what follows its request id.
    pub fn begin_id_prefixed_response<'a>(
        &self,
        kind: LegacyResponseKind,
        request_id: u64,
        payload: &'a [u8],
        part: ResponsePart,
    ) -> (rest: Result<&'a [u8], OutboundRequestError>)
        ensures
            match rest {
                Ok(rest) => self@.begun(kind, request_id, payload@, part) == Ok::<
                    Seq<u8>,
                    OutboundRequestError,
                >(rest@),
                Err(error) => self@.begun(kind, request_id, payload@, part) == Err::<
                    Seq<u8>,
                    OutboundRequestError,
                >(error),
            },
    {
        if self.budget.kind != kind {
            return Err(OutboundRequestError::Fatal(RequestFault::KindMismatch(part)));
        }
        if self.active_chunk_type.is_some() {
            return Err(OutboundRequestError::Fatal(RequestFault::Interleaved(part)));
        }
        let (got, rest) = match legacy_response_id(payload) {
            Ok(split) => split,
            Err(error) => {
                return Err(error);
            },
        };
        if got != request_id {
            return Err(
                OutboundRequestError::Fatal(
                    RequestFault::WrongId { part, expected: request_id, got },
                ),
            );
        }
        Ok(rest)
    }

    /// Counts `count` more items.
    pub fn add_items(&mut self, count: usize) -> (result: Result<(), OutboundRequestError>)
        ensures
            (result, final(self)@) == old(self)@.items_added(count as int),
    {
        self.items = self.items.saturating_add(count);
        if self.items > self.budget.max_items {
            return Err(OutboundRequestError::Fatal(RequestFault::TooManyItems));
        }
        Ok(())
    }
}

/// What is accepted never exceeds the budget: a step that succeeds leaves frames, bytes,
/// items and the assembled item within it.
pub proof fn law_accepted_responses_stay_within_budget(
    state: LegacyReadView,
    request_id: u64,
    frame: FrameView,
    valid: bool,
    end: Option<usize>,
)
    requires
        state.within_budget(),
    ensures
        ({
            let (step, after) = state.frame_read(request_id, frame);
            step matches Ok(step) ==> {
                &&& after.within_budget()
                &&& step matches FrameStep::DecodeItem(_) ==> {
                    let (result, done) = after.item_decoded(valid);
                    result is Ok ==> done.within_budget()
                }
                &&& step matches FrameStep::DecodeHeaders { count, .. } ==> {
                    let (result, done) = after.headers_decoded(
                        frame.payload.len(),
                        count as int,
                        end,
                    );
                    result is Ok ==> done.within_budget()
                }
            }
        }),
{
}

/// Only what was asked for is accepted: a frame passes when it belongs to the kind of the
/// request, or is the empty-result marker.
pub proof fn law_only_the_requested_kind_is_accepted(
    state: LegacyReadView,
    request_id: u64,
    frame: FrameView,
)
    requires
        state.frame_read(request_id, frame).0 is Ok,
    ensures
        frame.flags == 0,
        frame.message_type == LEGACY_RESPONSE_NIL || match state.budget.kind {
            LegacyResponseKind::Blocks => frame.message_type == LEGACY_RESPONSE_BLOCK
                || frame.message_type == LEGACY_RESPONSE_MISSING_BLOCKS,
            LegacyResponseKind::Transactions => frame.message_type == LEGACY_RESPONSE_TRANSACTION
                || frame.message_type == LEGACY_RESPONSE_MISSING_TRANSACTIONS,
            LegacyResponseKind::BlockHashes => frame.message_type == LEGACY_RESPONSE_BLOCK_HASHES,
            LegacyResponseKind::BlockHeaders => frame.message_type
                == LEGACY_RESPONSE_BLOCK_HEADERS,
            LegacyResponseKind::TransactionIds => frame.message_type
                == LEGACY_RESPONSE_TRANSACTION_IDS,
            LegacyResponseKind::Pong => frame.message_type == LEGACY_RESPONSE_PONG,
            LegacyResponseKind::Nil => false,
        },
{
}

/// A frame that is accepted carries the id of the request.
pub proof fn law_accepted_frames_answer_the_request(
    state: LegacyReadView,
    request_id: u64,
    frame: FrameView,
)
    requires
        state.frame_read(request_id, frame).0 is Ok,
    ensures
        frame.payload.len() >= LEGACY_RESPONSE_REQUEST_ID_BYTES,
        wire::le_u64(frame.payload) as u64 == request_id,
{
}

/// A lone nil frame is a complete response to every request: it is accepted as the first
/// frame, whatever was asked for, and nothing is left open after it.
pub proof fn law_nil_answers_every_request(
    message_type: u16,
    payload: Seq<u8>,
    max_message_bytes: u32,
    request_id: u64,
    id: Seq<u8>,
)
    requires
        request_budget(message_type, payload, max_message_bytes) is Ok,
        id.len() == LEGACY_RESPONSE_REQUEST_ID_BYTES,
        wire::le_u64(id) as u64 == request_id,
    ensures
        ({
            let state = LegacyReadView {
                budget: request_budget(message_type, payload, max_message_bytes)->Ok_0,
                frames: 0,
                bytes: 0,
                items: 0,
                chunk_type: None,
                chunk: Seq::empty(),
            };
            let nil = FrameView { message_type: LEGACY_RESPONSE_NIL, flags: 0, payload: id };
            let (step, after) = state.frame_read(request_id, nil);
            step == Ok::<FrameStep, OutboundRequestError>(FrameStep::Accepted)
                && after.chunk_type is None
        }),
{
}

/// While an item is being assembled, nothing but its own chunks is accepted.
pub proof fn law_chunks_are_never_interleaved(
    state: LegacyReadView,
    request_id: u64,
    frame: FrameView,
)
    requires
        state.chunk_type is Some,
        state.frame_read(request_id, frame).0 is Ok,
    ensures
        state.chunk_type == Some(frame.message_type),
{
}

} // verus!
