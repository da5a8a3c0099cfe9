//! What a response to a legacy request may look like, and what is made of it.

use crate::inventory;
use crate::legacy_response::{
    self, FrameStep, LegacyReadView, LEGACY_REQUEST_BLOCKS_BY_HASH,
    LEGACY_REQUEST_FIND_BLOCKS, LEGACY_REQUEST_FIND_HEADERS,
    LEGACY_REQUEST_MEMPOOL_TRANSACTION_IDS, LEGACY_REQUEST_PING, LEGACY_REQUEST_PUSH_TRANSACTION,
    LEGACY_REQUEST_TRANSACTIONS_BY_ID, LEGACY_RESPONSE_BLOCK, LEGACY_RESPONSE_BLOCK_HASHES,
    LEGACY_RESPONSE_BLOCK_HEADERS, LEGACY_RESPONSE_MISSING_BLOCKS,
    LEGACY_RESPONSE_MISSING_TRANSACTIONS, LEGACY_RESPONSE_NIL, LEGACY_RESPONSE_PONG,
    LEGACY_RESPONSE_TRANSACTION, LEGACY_RESPONSE_TRANSACTION_IDS, MAX_HEADERS_PER_MESSAGE,
};
use crate::outbound::{LegacyResponseKind, OutboundRequestError, RequestFault};
use crate::types::FrameView;
use crate::wire;
use vstd::prelude::*;

verus! {

/// Whether one more frame of this size is within the budget and free of flags.
pub open spec fn fits_the_budget(state: LegacyReadView, frame: FrameView) -> bool {
    &&& frame.flags == 0
    &&& state.frames + 1 <= state.budget.max_frames
    &&& state.bytes + frame.payload.len() <= state.budget.max_bytes
}

/// Whether a payload starts with the id of the request.
pub open spec fn names_the_request(payload: Seq<u8>, request_id: u64) -> bool {
    payload.len() >= 8 && wire::le_u64(payload) == request_id
}

/// Whether frames of this type carry items of this kind in chunks.
pub open spec fn carries_chunks(message_type: u16, kind: LegacyResponseKind) -> bool {
    ||| message_type == LEGACY_RESPONSE_BLOCK && kind == LegacyResponseKind::Blocks
    ||| message_type == LEGACY_RESPONSE_TRANSACTION && kind == LegacyResponseKind::Transactions
}

/// Whether frames of this type list inventory in answer to a request of this kind.
pub open spec fn carries_inventory(message_type: u16, kind: LegacyResponseKind) -> bool {
    ||| message_type == LEGACY_RESPONSE_MISSING_BLOCKS && kind == LegacyResponseKind::Blocks
    ||| message_type == LEGACY_RESPONSE_MISSING_TRANSACTIONS && kind
        == LegacyResponseKind::Transactions
    ||| message_type == LEGACY_RESPONSE_BLOCK_HASHES && kind == LegacyResponseKind::BlockHashes
    ||| message_type == LEGACY_RESPONSE_TRANSACTION_IDS && kind
        == LegacyResponseKind::TransactionIds
}

/// The state after the size of a frame was accounted for.
pub open spec fn is_counted(before: LegacyReadView, after: LegacyReadView, frame: FrameView) -> bool {
    &&& after.budget == before.budget
    &&& after.frames == before.frames + 1
    &&& after.bytes == before.bytes + frame.payload.len()
}

/// The number that eight bytes encode fits eight bytes.
proof fn lemma_id_fits(payload: Seq<u8>)
    ensures
        0 <= wire::le_u64(payload) <= u64::MAX,
{
}

/// A chunk of a requested block or transaction is accepted: its bytes follow those of the
/// chunks before it, and a last chunk asks for the decode of the whole item. It takes the
/// right type and id, a place in the budgets, and that no other item is being assembled.
pub proof fn law_chunks_of_requested_items_are_accepted(
    state: LegacyReadView,
    request_id: u64,
    frame: FrameView,
)
    requires
        fits_the_budget(state, frame),
        names_the_request(frame.payload, request_id),
        carries_chunks(frame.message_type, state.budget.kind),
        frame.payload.len() >= 9,
        state.chunk_type is None || state.chunk_type == Some(frame.message_type),
        state.chunk.len() + frame.payload.len() - 9 <= state.budget.max_message_bytes,
    ensures
        ({
            let (step, after) = state.frame_read(request_id, frame);
            &&& step == Ok::<FrameStep, OutboundRequestError>(
                if frame.payload[8] != 0 {
                    FrameStep::DecodeItem(state.budget.kind)
                } else {
                    FrameStep::Accepted
                },
            )
            &&& is_counted(state, after, frame)
            &&& after.items == state.items
            &&& after.chunk_type == Some(frame.message_type)
            &&& after.chunk.len() == state.chunk.len() + frame.payload.len() - 9
            &&& forall|i: int|
                0 <= i < state.chunk.len() ==> (#[trigger] after.chunk[i]) == state.chunk[i]
            &&& forall|i: int|
                9 <= i < frame.payload.len() ==> after.chunk[state.chunk.len() + i - 9]
                    == #[trigger] frame.payload[i]
        }),
{
    lemma_id_fits(frame.payload);
}

/// A chunk is accepted only where all that holds.
pub proof fn law_accepted_chunks_are_in_order(
    state: LegacyReadView,
    request_id: u64,
    frame: FrameView,
)
    requires
        frame.message_type == LEGACY_RESPONSE_BLOCK || frame.message_type
            == LEGACY_RESPONSE_TRANSACTION,
        state.frame_read(request_id, frame).0 is Ok,
    ensures
        frame.flags == 0,
        state.frames < state.budget.max_frames || state.frames == usize::MAX,
        state.bytes + frame.payload.len() <= state.budget.max_bytes || state.budget.max_bytes
            == usize::MAX,
        names_the_request(frame.payload, request_id),
        carries_chunks(frame.message_type, state.budget.kind),
        frame.payload.len() >= 9,
        state.chunk_type is None || state.chunk_type == Some(frame.message_type),
        state.chunk.len() + frame.payload.len() - 9 <= state.budget.max_message_bytes,
{
    lemma_id_fits(frame.payload);
}

/// The state after frames were read one after another, none if one was refused.
pub open spec fn read_all(
    state: LegacyReadView,
    request_id: u64,
    frames: Seq<FrameView>,
) -> Option<LegacyReadView>
    decreases frames.len(),
{
    if frames.len() == 0 {
        Some(state)
    } else {
        match state.frame_read(request_id, frames[0]) {
            (Ok(_), after) => read_all(after, request_id, frames.skip(1)),
            (Err(_), _) => None,
        }
    }
}

/// The bytes that chunks carry, one after another, without their headers.
pub open spec fn chunk_bytes(frames: Seq<FrameView>) -> Seq<u8>
    decreases frames.len(),
{
    if frames.len() == 0 {
        Seq::empty()
    } else {
        frames[0].payload.skip(9) + chunk_bytes(frames.skip(1))
    }
}

/// An item that comes in any number of chunks is made of all their bytes, in order.
pub proof fn law_items_are_made_of_all_their_chunks(
    state: LegacyReadView,
    request_id: u64,
    frames: Seq<FrameView>,
)
    requires
        forall|i: int|
            0 <= i < frames.len() ==> (#[trigger] frames[i]).message_type == LEGACY_RESPONSE_BLOCK
                || frames[i].message_type == LEGACY_RESPONSE_TRANSACTION,
    ensures
        read_all(state, request_id, frames) matches Some(after) ==> after.chunk == state.chunk
            + chunk_bytes(frames) && after.items == state.items && after.budget == state.budget,
    decreases frames.len(),
{
    if frames.len() == 0 {
        assert(state.chunk + chunk_bytes(frames) =~= state.chunk);
    } else {
        let rest = frames.skip(1);
        assert forall|i: int| 0 <= i < rest.len() implies (#[trigger] rest[i]).message_type
            == LEGACY_RESPONSE_BLOCK || rest[i].message_type == LEGACY_RESPONSE_TRANSACTION by {
            assert(rest[i] == frames[i + 1]);
        }
        let (step, after) = state.frame_read(request_id, frames[0]);
        if step is Ok {
            law_items_are_made_of_all_their_chunks(after, request_id, rest);
            assert(after.chunk == state.chunk + frames[0].payload.skip(9));
            assert(state.chunk + (frames[0].payload.skip(9) + chunk_bytes(rest)) =~= (state.chunk
                + frames[0].payload.skip(9)) + chunk_bytes(rest));
        }
    }
}

/// A decoded item counts as one, and the next one starts afresh; it is refused only where it
/// is one too many or does not decode.
pub proof fn law_decoded_items_are_counted(state: LegacyReadView, valid: bool)
    requires
        state.items < usize::MAX,
    ensures
        ({
            let (result, after) = state.item_decoded(valid);
            &&& result is Ok <==> valid && state.items + 1 <= state.budget.max_items
            &&& valid ==> after == (LegacyReadView {
                items: (state.items + 1) as usize,
                chunk_type: None,
                chunk: Seq::empty(),
                ..state
            })
            &&& !valid ==> after == state
            &&& result matches Err(error) ==> error is Fatal
        }),
{
}

/// A list of hashes, ids or missing items that answers the request is accepted, and its
/// items are counted. It takes the right type and id, a list that fills the frame, a place in
/// the budgets, and that no item is being assembled.
pub proof fn law_requested_lists_are_accepted(
    state: LegacyReadView,
    request_id: u64,
    frame: FrameView,
    count: int,
)
    requires
        fits_the_budget(state, frame),
        names_the_request(frame.payload, request_id),
        carries_inventory(frame.message_type, state.budget.kind),
        state.chunk_type is None,
        inventory::inventory_count(frame.payload.skip(8), state.budget.kind) == Ok::<
            int,
            OutboundRequestError,
        >(count),
        0 <= count,
        state.items + count <= state.budget.max_items,
    ensures
        ({
            let (step, after) = state.frame_read(request_id, frame);
            &&& step == Ok::<FrameStep, OutboundRequestError>(FrameStep::Accepted)
            &&& is_counted(state, after, frame)
            &&& after.items == state.items + count
            &&& after.chunk_type is None
            &&& after.chunk == state.chunk
        }),
{
    lemma_id_fits(frame.payload);
}

/// A list is accepted only where all that holds, and counts as many items as it declares.
pub proof fn law_accepted_lists_are_in_order(
    state: LegacyReadView,
    request_id: u64,
    frame: FrameView,
)
    requires
        frame.message_type == LEGACY_RESPONSE_MISSING_BLOCKS || frame.message_type
            == LEGACY_RESPONSE_MISSING_TRANSACTIONS || frame.message_type
            == LEGACY_RESPONSE_BLOCK_HASHES || frame.message_type
            == LEGACY_RESPONSE_TRANSACTION_IDS,
        state.frame_read(request_id, frame).0 is Ok,
        state.budget.max_items < usize::MAX,
    ensures
        frame.flags == 0,
        names_the_request(frame.payload, request_id),
        carries_inventory(frame.message_type, state.budget.kind),
        state.chunk_type is None,
        state.frame_read(request_id, frame).0 == Ok::<FrameStep, OutboundRequestError>(
            FrameStep::Accepted,
        ),
        inventory::inventory_count(frame.payload.skip(8), state.budget.kind) matches Ok(count)
            && state.frame_read(request_id, frame).1.items == state.items + count && state.items
            + count <= state.budget.max_items,
{
    lemma_id_fits(frame.payload);
    law_list_count_is_not_negative(frame.payload.skip(8), state.budget.kind);
}

/// A list has no negative number of items.
pub proof fn law_list_count_is_not_negative(payload: Seq<u8>, kind: LegacyResponseKind)
    ensures
        inventory::inventory_count(payload, kind) matches Ok(count) ==> 0 <= count
            <= inventory::MAX_PROTOCOL_MESSAGE_LEN,
{
}

/// A list of headers that answers the request has its headers decoded, from right after its
/// count; how many there are stands in the count. It takes the right id, a place in the
/// budgets, and no more headers than a message may hold.
pub proof fn law_requested_headers_are_decoded(
    state: LegacyReadView,
    request_id: u64,
    frame: FrameView,
    count: int,
    used: int,
)
    requires
        fits_the_budget(state, frame),
        names_the_request(frame.payload, request_id),
        frame.message_type == LEGACY_RESPONSE_BLOCK_HEADERS,
        state.budget.kind == LegacyResponseKind::BlockHeaders,
        state.chunk_type is None,
        inventory::compact_size(frame.payload.skip(8)) == Some((count, used)),
        0 <= count <= MAX_HEADERS_PER_MESSAGE,
        0 <= used <= 9,
    ensures
        ({
            let (step, after) = state.frame_read(request_id, frame);
            &&& step matches Ok(FrameStep::DecodeHeaders { count: asked, offset }) && asked == count
                && offset == 8 + used
            &&& is_counted(state, after, frame)
            &&& after.items == state.items
            &&& after.chunk_type is None
        }),
{
    lemma_id_fits(frame.payload);
}

/// Decoded headers are counted where they end with the payload; anything else is refused.
pub proof fn law_decoded_headers_are_counted(
    state: LegacyReadView,
    payload_len: nat,
    count: int,
    end: Option<usize>,
)
    requires
        0 <= count,
        state.items + count <= usize::MAX,
    ensures
        ({
            let (result, after) = state.headers_decoded(payload_len, count, end);
            &&& result is Ok <==> end is Some && end->0 == payload_len && state.items + count
                <= state.budget.max_items
            &&& result is Ok ==> after == (LegacyReadView {
                items: (state.items + count) as usize,
                ..state
            })
            &&& result matches Err(error) ==> error is Fatal
        }),
{
}

/// A liveness answer is accepted: exactly the id of a request for one, while there is a place
/// in the budgets.
pub proof fn law_requested_pong_is_accepted(
    state: LegacyReadView,
    request_id: u64,
    frame: FrameView,
)
    requires
        frame.message_type == LEGACY_RESPONSE_PONG,
        fits_the_budget(state, frame),
        state.items + 1 <= state.budget.max_items,
    ensures
        ({
            let (step, after) = state.frame_read(request_id, frame);
            &&& step is Ok <==> names_the_request(frame.payload, request_id) && frame.payload.len()
                == 8 && state.budget.kind == LegacyResponseKind::Pong && state.chunk_type is None
            &&& step is Ok ==> step->Ok_0 == FrameStep::Accepted && is_counted(state, after, frame)
                && after.items == state.items + 1
        }),
{
    lemma_id_fits(frame.payload);
}

/// The empty-result marker answers a request of any kind: exactly its id, while there is a
/// place in the budgets and no item is being assembled.
pub proof fn law_nil_is_accepted(state: LegacyReadView, request_id: u64, frame: FrameView)
    requires
        frame.message_type == LEGACY_RESPONSE_NIL,
        fits_the_budget(state, frame),
        state.items + 1 <= state.budget.max_items || (state.items == 0 && state.budget.max_items
            == 0),
    ensures
        ({
            let (step, after) = state.frame_read(request_id, frame);
            &&& step is Ok <==> names_the_request(frame.payload, request_id) && frame.payload.len()
                == 8 && state.chunk_type is None
            &&& step is Ok ==> step->Ok_0 == FrameStep::Accepted && is_counted(state, after, frame)
        }),
{
    lemma_id_fits(frame.payload);
}

/// A frame that is refused ends the connection, whatever is wrong with it.
pub proof fn law_refused_frames_end_the_connection(
    state: LegacyReadView,
    request_id: u64,
    frame: FrameView,
)
    ensures
        state.frame_read(request_id, frame).0 matches Err(error) ==> error is Fatal,
{
}

/// What is wrong is named: flags come first, too many frames next, too many bytes next, and a
/// type that no response has after that.
pub proof fn law_refusals_are_named(state: LegacyReadView, request_id: u64, frame: FrameView)
    ensures
        ({
            let step = state.frame_read(request_id, frame).0;
            &&& frame.flags != 0 ==> step == Err::<FrameStep, OutboundRequestError>(
                OutboundRequestError::Fatal(RequestFault::UnsupportedFlags(frame.flags)),
            )
            &&& frame.flags == 0 && state.frames >= state.budget.max_frames && state.frames
                < usize::MAX ==> step == Err::<FrameStep, OutboundRequestError>(
                OutboundRequestError::Fatal(RequestFault::TooManyFrames),
            )
            &&& frame.flags == 0 && state.frames < state.budget.max_frames && state.bytes
                + frame.payload.len() > state.budget.max_bytes && state.budget.max_bytes < usize::MAX
                ==> step == Err::<FrameStep, OutboundRequestError>(
                OutboundRequestError::Fatal(RequestFault::ByteBudget),
            )
            &&& fits_the_budget(state, frame) && !(LEGACY_RESPONSE_BLOCK <= frame.message_type
                <= LEGACY_RESPONSE_MISSING_TRANSACTIONS) && !(LEGACY_RESPONSE_BLOCK_HASHES
                <= frame.message_type <= LEGACY_RESPONSE_NIL) ==> step == Err::<
                FrameStep,
                OutboundRequestError,
            >(OutboundRequestError::Fatal(RequestFault::UnknownResponseType(frame.message_type)))
        }),
{
}

/// The kind of a response follows from its request, and a type that is no request cannot be
/// asked for.
pub proof fn law_requests_get_their_kind(
    message_type: u16,
    payload: Seq<u8>,
    max_message_bytes: u32,
)
    ensures
        match legacy_response::request_budget(message_type, payload, max_message_bytes) {
            Ok(budget) => {
                &&& budget.kind == LegacyResponseKind::Blocks <==> message_type
                    == LEGACY_REQUEST_BLOCKS_BY_HASH
                &&& budget.kind == LegacyResponseKind::Transactions <==> message_type
                    == LEGACY_REQUEST_TRANSACTIONS_BY_ID
                &&& budget.kind == LegacyResponseKind::BlockHashes <==> message_type
                    == LEGACY_REQUEST_FIND_BLOCKS
                &&& budget.kind == LegacyResponseKind::BlockHeaders <==> message_type
                    == LEGACY_REQUEST_FIND_HEADERS
                &&& budget.kind == LegacyResponseKind::TransactionIds <==> message_type
                    == LEGACY_REQUEST_MEMPOOL_TRANSACTION_IDS
                &&& budget.kind == LegacyResponseKind::Pong <==> message_type == LEGACY_REQUEST_PING
                &&& budget.kind == LegacyResponseKind::Nil <==> message_type
                    == LEGACY_REQUEST_PUSH_TRANSACTION
                &&& budget.max_message_bytes == max_message_bytes
            },
            Err(error) => {
                ||| error == OutboundRequestError::Local(
                    RequestFault::UnsupportedLegacyRequest(message_type),
                ) && message_type != LEGACY_REQUEST_BLOCKS_BY_HASH && message_type
                    != LEGACY_REQUEST_TRANSACTIONS_BY_ID && message_type
                    != LEGACY_REQUEST_FIND_BLOCKS && message_type != LEGACY_REQUEST_FIND_HEADERS
                    && message_type != LEGACY_REQUEST_MEMPOOL_TRANSACTION_IDS && message_type
                    != LEGACY_REQUEST_PING && message_type != LEGACY_REQUEST_PUSH_TRANSACTION
                ||| error is Fatal && (message_type == LEGACY_REQUEST_BLOCKS_BY_HASH
                    || message_type == LEGACY_REQUEST_TRANSACTIONS_BY_ID)
            },
        },
{
}

/// A request for blocks or transactions may be answered in full: the budget holds every
/// requested item, each as large as a message and in eight frames, and a list of missing
/// ones besides. No more items than requested are taken.
pub proof fn law_budget_holds_a_full_answer(
    message_type: u16,
    payload: Seq<u8>,
    max_message_bytes: u32,
    requested: int,
)
    requires
        (message_type == LEGACY_REQUEST_BLOCKS_BY_HASH && inventory::inventory_count(
            payload,
            LegacyResponseKind::Blocks,
        ) == Ok::<int, OutboundRequestError>(requested)) || (message_type
            == LEGACY_REQUEST_TRANSACTIONS_BY_ID && inventory::inventory_count(
            payload,
            LegacyResponseKind::Transactions,
        ) == Ok::<int, OutboundRequestError>(requested)),
        requested * max_message_bytes + requested * 36 + 17 <= usize::MAX,
    ensures
        legacy_response::request_budget(message_type, payload, max_message_bytes) matches Ok(budget)
            && {
            &&& budget.max_items == requested
            &&& budget.max_frames == 8 * requested + 1
            &&& budget.max_bytes >= requested * max_message_bytes
            &&& budget.max_bytes == requested * max_message_bytes + 17 + requested * (
            if message_type == LEGACY_REQUEST_BLOCKS_BY_HASH {
                32int
            } else {
                36int
            })
        },
{
    law_list_count_is_not_negative(payload, LegacyResponseKind::Blocks);
    law_list_count_is_not_negative(payload, LegacyResponseKind::Transactions);
    let each = max_message_bytes as int;
    assert(requested * each >= 0) by (nonlinear_arith)
        requires
            requested >= 0,
            each >= 0,
    ;
}

/// Requests for lists and acknowledgements are answered in one frame, which holds as many
/// items as one message may.
pub proof fn law_other_answers_are_one_frame(
    message_type: u16,
    payload: Seq<u8>,
    max_message_bytes: u32,
)
    requires
        message_type == LEGACY_REQUEST_FIND_BLOCKS || message_type == LEGACY_REQUEST_FIND_HEADERS
            || message_type == LEGACY_REQUEST_MEMPOOL_TRANSACTION_IDS || message_type
            == LEGACY_REQUEST_PING || message_type == LEGACY_REQUEST_PUSH_TRANSACTION,
    ensures
        legacy_response::request_budget(message_type, payload, max_message_bytes) matches Ok(budget)
            && {
            &&& budget.max_frames == 1
            &&& message_type == LEGACY_REQUEST_FIND_BLOCKS ==> budget.max_items == 25_000
                && budget.max_bytes == 17 + 25_000 * 32
            &&& message_type == LEGACY_REQUEST_MEMPOOL_TRANSACTION_IDS ==> budget.max_items
                == 25_000 && budget.max_bytes == 17 + 25_000 * 36
            &&& message_type == LEGACY_REQUEST_FIND_HEADERS ==> budget.max_items == 160 && (
            budget.max_bytes == 8 + max_message_bytes || budget.max_bytes == usize::MAX)
            &&& message_type == LEGACY_REQUEST_PING || message_type
                == LEGACY_REQUEST_PUSH_TRANSACTION ==> budget.max_items == 1 && budget.max_bytes
                == 8
        },
{
}

/// A list of block hashes counts what it declares, where its bytes are exactly the count and
/// that many hashes; for a count of less than 253 the count is one byte.
pub proof fn law_hash_lists_are_counted(payload: Seq<u8>, kind: LegacyResponseKind)
    requires
        payload.len() > 0,
        payload[0] < 0xfd,
        kind == LegacyResponseKind::Blocks || kind == LegacyResponseKind::BlockHashes,
    ensures
        inventory::inventory_count(payload, kind) is Ok <==> payload.len() == 1 + 32 * payload[0],
        inventory::inventory_count(payload, kind) matches Ok(count) ==> count == payload[0],
{
}

/// A list of plain transaction ids counts what it declares, where its bytes are exactly the
/// count and that many items, each a type code of one and a hash.
pub proof fn law_transaction_lists_are_counted(payload: Seq<u8>, kind: LegacyResponseKind)
    requires
        payload.len() > 0,
        payload[0] < 0xfd,
        payload.len() == 1 + 36 * payload[0],
        forall|i: int|
            0 <= i < payload[0] ==> #[trigger] wire::le_u32(payload.skip(1 + 36 * i)) == 1,
        kind == LegacyResponseKind::Transactions || kind == LegacyResponseKind::TransactionIds,
    ensures
        inventory::inventory_count(payload, kind) == Ok::<int, OutboundRequestError>(
            payload[0] as int,
        ),
{
    let count = payload[0] as nat;
    assert forall|i: int| 0 <= i < count implies #[trigger] wire::le_u32(
        payload.skip(1).skip(36 * i),
    ) == 1 by {
        assert(payload.skip(1).skip(36 * i) =~= payload.skip(1 + 36 * i));
        assert(wire::le_u32(payload.skip(1 + 36 * i)) == 1);
    }
    lemma_plain_transactions_len(payload.skip(1), count);
}

/// Plain transaction ids take 36 bytes each.
proof fn lemma_plain_transactions_len(bytes: Seq<u8>, count: nat)
    requires
        bytes.len() >= 36 * count,
        forall|i: int| 0 <= i < count ==> #[trigger] wire::le_u32(bytes.skip(36 * i)) == 1,
    ensures
        inventory::transactions_len(bytes, count) == Ok::<nat, RequestFault>(36 * count),
    decreases count,
{
    if count > 0 {
        assert(bytes.skip(36 * 0int) =~= bytes);
        assert(wire::le_u32(bytes.skip(36 * 0int)) == 1);
        let rest = bytes.skip(36);
        assert forall|i: int| 0 <= i < count - 1 implies #[trigger] wire::le_u32(rest.skip(36 * i))
            == 1 by {
            assert(rest.skip(36 * i) =~= bytes.skip(36 * (i + 1)));
            assert(wire::le_u32(bytes.skip(36 * (i + 1))) == 1);
        }
        lemma_plain_transactions_len(rest, (count - 1) as nat);
    }
}

/// Counts come in four forms, each only for what the shorter ones cannot hold, and none above
/// the message cap: one byte, a marker and two bytes, or a marker and four bytes.
pub proof fn law_counts_are_canonical(bytes: Seq<u8>)
    requires
        bytes.len() >= 9,
    ensures
        bytes[0] < 0xfd ==> inventory::compact_size(bytes) == Some((bytes[0] as int, 1int)),
        bytes[0] == 0xfd ==> ({
            let value = wire::le_u16(bytes.skip(1));
            inventory::compact_size(bytes) == (if value >= 0xfd {
                Some((value, 3int))
            } else {
                None
            })
        }),
        bytes[0] == 0xfe ==> ({
            let value = wire::le_u32(bytes.skip(1));
            inventory::compact_size(bytes) == (if 0x1_0000 <= value <= 2 * 1024 * 1024 {
                Some((value, 5int))
            } else {
                None
            })
        }),
        bytes[0] == 0xff ==> inventory::compact_size(bytes) is None,
{
}

/// Whether a transaction id starts at the `i`-th place and ends at the next: one of 36 bytes,
/// or one of 68 bytes that names the authorizing data too.
pub open spec fn is_transaction_at(bytes: Seq<u8>, places: Seq<int>, i: int) -> bool {
    let code = wire::le_u32(bytes.skip(places[i]));
    &&& 0 <= places[i] < places[i + 1] <= bytes.len()
    &&& (code == 1 && places[i + 1] == places[i] + 36) || (code == 5 && places[i + 1] == places[i]
        + 68)
}

/// Whether transaction ids start at these places, one after another.
pub open spec fn are_transactions_at(bytes: Seq<u8>, places: Seq<int>) -> bool {
    &&& places.len() >= 1
    &&& places[0] == 0
    &&& forall|i: int|
        0 <= i < places.len() - 1 ==> #[trigger] is_transaction_at(bytes, places, i)
}

/// Transaction ids of either form may be mixed, and take as many bytes as they have.
pub proof fn law_transactions_of_both_forms_are_walked(bytes: Seq<u8>, places: Seq<int>)
    requires
        are_transactions_at(bytes, places),
    ensures
        inventory::transactions_len(bytes, (places.len() - 1) as nat) == Ok::<nat, RequestFault>(
            places.last() as nat,
        ),
    decreases places.len(),
{
    if places.len() > 1 {
        assert(bytes.skip(places[0]) =~= bytes);
        let first = places[1];
        let rest = bytes.skip(first);
        let moved = Seq::new((places.len() - 1) as nat, |i: int| places[i + 1] - first);
        assert(is_transaction_at(bytes, places, 0));
        assert forall|i: int| 0 <= i < moved.len() - 1 implies #[trigger] is_transaction_at(
            rest,
            moved,
            i,
        ) by {
            lemma_places_grow(bytes, places, 1, i + 1);
            assert(is_transaction_at(bytes, places, i + 1));
            assert(rest.skip(moved[i]) =~= bytes.skip(places[i + 1]));
        }
        law_transactions_of_both_forms_are_walked(rest, moved);
        lemma_places_grow(bytes, places, 1, places.len() - 1);
        assert(moved.last() == places.last() - first);
    }
}

/// Items start after the ones before them.
proof fn lemma_places_grow(bytes: Seq<u8>, places: Seq<int>, a: int, b: int)
    requires
        are_transactions_at(bytes, places),
        0 <= a <= b < places.len(),
    ensures
        places[a] <= places[b],
    decreases b - a,
{
    if a < b {
        lemma_places_grow(bytes, places, a, b - 1);
        assert(is_transaction_at(bytes, places, b - 1));
    }
}

/// An item that is no transaction is refused as what it is, wherever it is too short or of
/// another type.
pub proof fn law_other_items_are_refused(bytes: Seq<u8>, count: nat)
    requires
        count > 0,
    ensures
        ({
            let walked = inventory::transactions_len(bytes, count);
            let code = wire::le_u32(bytes);
            &&& bytes.len() < 36 ==> walked == Err::<nat, RequestFault>(
                RequestFault::MalformedInventory,
            )
            &&& bytes.len() >= 36 && (code == 0 || code == 2 || code == 3) ==> walked == Err::<
                nat,
                RequestFault,
            >(RequestFault::NonTransactionItem)
            &&& bytes.len() >= 36 && (code == 4 || code > 5) ==> walked == Err::<nat, RequestFault>(
                RequestFault::MalformedInventory,
            )
            &&& bytes.len() < 68 && code == 5 ==> walked == Err::<nat, RequestFault>(
                RequestFault::MalformedInventory,
            )
        }),
{
}

} // verus!
