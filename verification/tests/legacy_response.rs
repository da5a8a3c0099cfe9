use zakura::echo_status::TEST_ECHO_STATUS_REQUEST;
use zakura::exchange::{
    conclude_request, ExchangeStep, OutboundExchange, OutboundResponseReadState, RequestConclusion,
    ResponseRead,
};
use zakura::inventory::{
    legacy_inventory_count, read_compact_size, reject_legacy_inventory_trailing,
    MAX_PROTOCOL_MESSAGE_LEN,
};
use zakura::legacy_response::{
    legacy_response_chunk_header, legacy_response_id, FrameStep, LegacyResponseBudget,
    LegacyResponseReadState, LEGACY_REQUEST_BLOCKS_BY_HASH, LEGACY_REQUEST_FIND_BLOCKS,
    LEGACY_REQUEST_FIND_HEADERS, LEGACY_REQUEST_MEMPOOL_TRANSACTION_IDS, LEGACY_REQUEST_PING,
    LEGACY_REQUEST_PUSH_TRANSACTION, LEGACY_REQUEST_TRANSACTIONS_BY_ID, LEGACY_RESPONSE_BLOCK,
    LEGACY_RESPONSE_BLOCK_HASHES, LEGACY_RESPONSE_BLOCK_HEADERS,
    LEGACY_RESPONSE_MISSING_BLOCKS, LEGACY_RESPONSE_MISSING_TRANSACTIONS, LEGACY_RESPONSE_NIL,
    LEGACY_RESPONSE_PONG, LEGACY_RESPONSE_TRANSACTION_IDS,
};
use zakura::limits::ZakuraConnectionLimits;
use zakura::outbound::{LegacyResponseKind, OutboundRequestError, RequestFault, ResponsePart};
use zakura::streams::{LEGACY_REQUEST_STREAM_KIND, ZAKURA_STREAM_TEST_ECHO_STATUS};
use zakura::time::Duration;
use zakura::types::Frame;

fn test_connection_limits() -> ZakuraConnectionLimits {
    let max_protocol_message_len =
        u32::try_from(MAX_PROTOCOL_MESSAGE_LEN).expect("protocol message length fits in u32");

    ZakuraConnectionLimits {
        max_frame_bytes: max_protocol_message_len,
        max_message_bytes: max_protocol_message_len,
        max_open_streams: 16,
        max_inbound_queue_depth: 16,
        idle_timeout: Duration::from_secs(1),
        prelude_timeout: Duration::from_secs(1),
        control_timeout: Duration::from_secs(1),
        stream_open_rate_per_second: 16,
        message_rate_per_second: 128,
    }
}

fn frame(message_type: u16, payload: Vec<u8>) -> Frame {
    Frame {
        message_type,
        flags: 0,
        payload,
    }
}

fn with_id(request_id: u64, rest: &[u8]) -> Vec<u8> {
    let mut payload = request_id.to_le_bytes().to_vec();
    payload.extend_from_slice(rest);
    payload
}

fn block_list(hashes: &[u8]) -> Vec<u8> {
    let mut list = vec![u8::try_from(hashes.len()).expect("a short list")];
    for byte in hashes {
        list.extend_from_slice(&[*byte; 32]);
    }
    list
}

fn transaction_list(ids: &[u8]) -> Vec<u8> {
    let mut list = vec![u8::try_from(ids.len()).expect("a short list")];
    for byte in ids {
        list.extend_from_slice(&1u32.to_le_bytes());
        list.extend_from_slice(&[*byte; 32]);
    }
    list
}

/// One chunk of an item.
fn chunk(request_id: u64, last: bool, bytes: &[u8]) -> Vec<u8> {
    let mut rest = vec![u8::from(last)];
    rest.extend_from_slice(bytes);
    with_id(request_id, &rest)
}

/// Reads a response whose items and headers all decode.
fn assert_frames_validate_at_transport(message_type: u16, request: &[u8], frames: &[Frame]) {
    let request_id = 99;
    let budget =
        LegacyResponseBudget::from_request(message_type, request, &test_connection_limits())
            .expect("the request has a budget");
    let mut state = LegacyResponseReadState::new(budget);
    for frame in frames {
        match state
            .validate_frame(request_id, frame)
            .expect("the frame is valid")
        {
            FrameStep::Accepted => {}
            FrameStep::DecodeItem(_) => state
                .validate_completed_item(true)
                .expect("the item is within the budget"),
            FrameStep::DecodeHeaders { count, .. } => {
                let end = frame.payload.len();
                state
                    .legacy_header_count(&frame.payload, count, Some(end))
                    .expect("the headers are within the budget");
            }
        }
    }
    state.finish().expect("the response is complete");
}

#[test]
fn legacy_transport_response_validator_accepts_codec_frames() {
    assert_frames_validate_at_transport(
        LEGACY_REQUEST_BLOCKS_BY_HASH,
        &block_list(&[1]),
        &[frame(LEGACY_RESPONSE_BLOCK, chunk(99, true, b"block bytes"))],
    );
    assert_frames_validate_at_transport(
        LEGACY_REQUEST_TRANSACTIONS_BY_ID,
        &transaction_list(&[7]),
        &[frame(
            LEGACY_RESPONSE_MISSING_TRANSACTIONS,
            with_id(99, &transaction_list(&[7])),
        )],
    );
    assert_frames_validate_at_transport(
        LEGACY_REQUEST_FIND_BLOCKS,
        &block_list(&[1]),
        &[frame(
            LEGACY_RESPONSE_BLOCK_HASHES,
            with_id(99, &block_list(&[2])),
        )],
    );
    assert_frames_validate_at_transport(
        LEGACY_REQUEST_FIND_HEADERS,
        &block_list(&[1]),
        &[frame(
            LEGACY_RESPONSE_BLOCK_HEADERS,
            with_id(99, &[1, 0xaa, 0xbb]),
        )],
    );
    assert_frames_validate_at_transport(
        LEGACY_REQUEST_MEMPOOL_TRANSACTION_IDS,
        &[],
        &[frame(
            LEGACY_RESPONSE_TRANSACTION_IDS,
            with_id(99, &transaction_list(&[7])),
        )],
    );
    assert_frames_validate_at_transport(
        LEGACY_REQUEST_PING,
        &[],
        &[frame(LEGACY_RESPONSE_PONG, with_id(99, &[]))],
    );
    assert_frames_validate_at_transport(
        LEGACY_REQUEST_PUSH_TRANSACTION,
        b"transaction bytes",
        &[frame(LEGACY_RESPONSE_NIL, with_id(99, &[]))],
    );

    // An empty result is answered with the nil marker for every request that can find
    // nothing.
    for message_type in [
        LEGACY_REQUEST_FIND_BLOCKS,
        LEGACY_REQUEST_FIND_HEADERS,
        LEGACY_REQUEST_MEMPOOL_TRANSACTION_IDS,
    ] {
        assert_frames_validate_at_transport(
            message_type,
            &block_list(&[1]),
            &[frame(LEGACY_RESPONSE_NIL, with_id(99, &[]))],
        );
    }
}

#[test]
fn budgets_follow_the_request() {
    let limits = test_connection_limits();
    let max = limits.max_message_bytes as usize;
    let budget = |message_type: u16, payload: &[u8]| {
        LegacyResponseBudget::from_request(message_type, payload, &limits)
            .expect("the request has a budget")
    };

    let blocks = budget(LEGACY_REQUEST_BLOCKS_BY_HASH, &block_list(&[1, 2]));
    assert_eq!(blocks.kind, LegacyResponseKind::Blocks);
    assert_eq!(blocks.max_items, 2);
    assert_eq!(blocks.max_frames, 17);
    assert_eq!(blocks.max_bytes, 2 * max + 17 + 64);

    let transactions = budget(LEGACY_REQUEST_TRANSACTIONS_BY_ID, &transaction_list(&[1]));
    assert_eq!(transactions.max_bytes, max + 17 + 36);

    let hashes = budget(LEGACY_REQUEST_FIND_BLOCKS, &[]);
    assert_eq!(
        (hashes.max_items, hashes.max_frames, hashes.max_bytes),
        (25_000, 1, 17 + 25_000 * 32)
    );
    let headers = budget(LEGACY_REQUEST_FIND_HEADERS, &[]);
    assert_eq!(
        (headers.max_items, headers.max_frames, headers.max_bytes),
        (160, 1, 8 + max)
    );
    let ids = budget(LEGACY_REQUEST_MEMPOOL_TRANSACTION_IDS, &[]);
    assert_eq!(ids.max_bytes, 17 + 25_000 * 36);
    let pong = budget(LEGACY_REQUEST_PING, &[]);
    assert_eq!((pong.max_items, pong.max_frames, pong.max_bytes), (1, 1, 8));

    assert!(matches!(
        LegacyResponseBudget::from_request(77, &[], &limits),
        Err(OutboundRequestError::Local(
            RequestFault::UnsupportedLegacyRequest(77)
        ))
    ));
    assert!(matches!(
        LegacyResponseBudget::from_request(LEGACY_REQUEST_BLOCKS_BY_HASH, &[1, 2], &limits),
        Err(OutboundRequestError::Fatal(
            RequestFault::BlockInventoryLength
        ))
    ));
}

fn state(message_type: u16, request: &[u8]) -> LegacyResponseReadState {
    LegacyResponseReadState::new(
        LegacyResponseBudget::from_request(message_type, request, &test_connection_limits())
            .expect("the request has a budget"),
    )
}

fn fatal(result: Result<FrameStep, OutboundRequestError>) -> RequestFault {
    match result {
        Err(OutboundRequestError::Fatal(fault)) => fault,
        other => panic!("expected a fatal fault, got {other:?}"),
    }
}

#[test]
fn response_frames_are_held_to_their_request() {
    let mut blocks = state(LEGACY_REQUEST_BLOCKS_BY_HASH, &block_list(&[1]));
    let mut flagged = frame(LEGACY_RESPONSE_BLOCK, chunk(99, true, b"x"));
    flagged.flags = 3;
    assert_eq!(
        fatal(blocks.validate_frame(99, &flagged)),
        RequestFault::UnsupportedFlags(3)
    );
    assert_eq!(
        fatal(
            state(LEGACY_REQUEST_BLOCKS_BY_HASH, &block_list(&[1]))
                .validate_frame(99, &frame(LEGACY_RESPONSE_BLOCK, chunk(98, true, b"x")))
        ),
        RequestFault::WrongId {
            part: ResponsePart::Chunk,
            expected: 99,
            got: 98
        }
    );
    assert_eq!(
        fatal(
            state(LEGACY_REQUEST_BLOCKS_BY_HASH, &block_list(&[1]))
                .validate_frame(99, &frame(LEGACY_RESPONSE_PONG, with_id(99, &[])))
        ),
        RequestFault::KindMismatch(ResponsePart::Acknowledgement)
    );
    assert_eq!(
        fatal(
            state(LEGACY_REQUEST_PING, &[]).validate_frame(99, &frame(77, with_id(99, &[])))
        ),
        RequestFault::UnknownResponseType(77)
    );
    assert_eq!(
        fatal(
            state(LEGACY_REQUEST_BLOCKS_BY_HASH, &block_list(&[1])).validate_frame(
                99,
                &frame(
                    LEGACY_RESPONSE_MISSING_BLOCKS,
                    with_id(99, &block_list(&[1, 2]))
                )
            )
        ),
        RequestFault::TooManyItems
    );
    assert_eq!(
        fatal(
            state(LEGACY_REQUEST_PING, &[])
                .validate_frame(99, &frame(LEGACY_RESPONSE_PONG, vec![1, 2]))
        ),
        RequestFault::TruncatedId
    );
}

#[test]
fn chunks_are_assembled_without_interleaving() {
    let mut blocks = state(LEGACY_REQUEST_BLOCKS_BY_HASH, &block_list(&[1]));
    assert!(matches!(
        blocks.validate_frame(99, &frame(LEGACY_RESPONSE_BLOCK, chunk(99, false, b"first "))),
        Ok(FrameStep::Accepted)
    ));
    assert!(blocks.finish().is_err(), "an item is still open");
    assert_eq!(
        fatal(blocks.validate_frame(99, &frame(LEGACY_RESPONSE_NIL, with_id(99, &[])))),
        RequestFault::Interleaved(ResponsePart::Nil)
    );

    let mut blocks = state(LEGACY_REQUEST_BLOCKS_BY_HASH, &block_list(&[1]));
    assert!(matches!(
        blocks.validate_frame(99, &frame(LEGACY_RESPONSE_BLOCK, chunk(99, false, b"first "))),
        Ok(FrameStep::Accepted)
    ));
    assert!(matches!(
        blocks.validate_frame(99, &frame(LEGACY_RESPONSE_BLOCK, chunk(99, true, b"second"))),
        Ok(FrameStep::DecodeItem(LegacyResponseKind::Blocks))
    ));
    assert_eq!(blocks.active_chunk, b"first second");
    assert!(blocks.validate_completed_item(true).is_ok());
    assert!(blocks.active_chunk.is_empty());
    assert!(blocks.finish().is_ok());

    let mut blocks = state(LEGACY_REQUEST_BLOCKS_BY_HASH, &block_list(&[1]));
    assert!(blocks
        .validate_frame(99, &frame(LEGACY_RESPONSE_BLOCK, chunk(99, true, b"bad")))
        .is_ok());
    assert!(matches!(
        blocks.validate_completed_item(false),
        Err(OutboundRequestError::Fatal(RequestFault::MalformedItem))
    ));
}

#[test]
fn inventory_lists_must_fill_their_payload() {
    assert_eq!(
        legacy_inventory_count(&block_list(&[1, 2, 3]), LegacyResponseKind::BlockHashes),
        Ok(3)
    );
    assert_eq!(
        legacy_inventory_count(&transaction_list(&[1, 2]), LegacyResponseKind::TransactionIds),
        Ok(2)
    );
    let mut wide = vec![1];
    wide.extend_from_slice(&5u32.to_le_bytes());
    wide.extend_from_slice(&[6; 64]);
    assert_eq!(
        legacy_inventory_count(&wide, LegacyResponseKind::Transactions),
        Ok(1)
    );

    let mut block_item = transaction_list(&[1]);
    block_item[1] = 2;
    for (payload, fault) in [
        (block_item, RequestFault::NonTransactionItem),
        (vec![], RequestFault::MalformedCount),
        (vec![1, 1, 0], RequestFault::MalformedInventory),
        (vec![0, 0], RequestFault::TrailingBytes),
    ] {
        assert_eq!(
            legacy_inventory_count(&payload, LegacyResponseKind::Transactions),
            Err(OutboundRequestError::Fatal(fault))
        );
    }
    assert_eq!(
        legacy_inventory_count(&[0], LegacyResponseKind::Pong),
        Err(OutboundRequestError::Local(
            RequestFault::KindWithoutInventory
        ))
    );
    assert_eq!(reject_legacy_inventory_trailing(&[1, 2], 2), Ok(()));
    assert!(reject_legacy_inventory_trailing(&[1, 2], 1).is_err());
}

#[test]
fn counts_are_canonical_and_capped() {
    assert_eq!(read_compact_size(&[0xfc]), Some((0xfc, 1)));
    assert_eq!(read_compact_size(&[0xfd, 0xfd, 0x00]), Some((0xfd, 3)));
    assert_eq!(read_compact_size(&[0xfd, 0xfc, 0x00]), None);
    assert_eq!(
        read_compact_size(&[0xfe, 0x00, 0x00, 0x20, 0x00]),
        Some((MAX_PROTOCOL_MESSAGE_LEN, 5))
    );
    assert_eq!(read_compact_size(&[0xfe, 0x01, 0x00, 0x20, 0x00]), None);
    assert_eq!(read_compact_size(&[0xfe, 0xff, 0xff, 0x00, 0x00]), None);
    assert_eq!(read_compact_size(&[0xff, 0, 0, 0, 0, 1, 0, 0, 0]), None);
    assert_eq!(read_compact_size(&[]), None);
}

#[test]
fn response_headers_are_split_off() {
    assert_eq!(
        legacy_response_id(&with_id(7, b"rest")),
        Ok((7, b"rest".as_slice()))
    );
    assert!(legacy_response_id(&[0; 7]).is_err());
    assert_eq!(
        legacy_response_chunk_header(&chunk(7, true, b"x")),
        Ok((7, true, b"x".as_slice()))
    );
    assert_eq!(
        legacy_response_chunk_header(&with_id(7, &[9])),
        Ok((7, true, b"".as_slice()))
    );
    assert!(legacy_response_chunk_header(&[0; 8]).is_err());
}

#[test]
fn a_lone_nil_frame_answers_every_request() {
    let requests = [
        (LEGACY_REQUEST_BLOCKS_BY_HASH, block_list(&[1])),
        (LEGACY_REQUEST_TRANSACTIONS_BY_ID, transaction_list(&[7])),
        (LEGACY_REQUEST_FIND_BLOCKS, block_list(&[1])),
        (LEGACY_REQUEST_FIND_HEADERS, block_list(&[1])),
        (LEGACY_REQUEST_MEMPOOL_TRANSACTION_IDS, vec![]),
        (LEGACY_REQUEST_PING, vec![]),
        (LEGACY_REQUEST_PUSH_TRANSACTION, vec![]),
    ];
    for (message_type, request) in requests {
        assert_frames_validate_at_transport(
            message_type,
            &request,
            &[frame(LEGACY_RESPONSE_NIL, with_id(99, &[]))],
        );
    }
}

#[test]
fn a_lone_nil_frame_answers_a_request_for_nothing() {
    for (message_type, request) in [
        (LEGACY_REQUEST_BLOCKS_BY_HASH, block_list(&[])),
        (LEGACY_REQUEST_TRANSACTIONS_BY_ID, transaction_list(&[])),
    ] {
        let budget =
            LegacyResponseBudget::from_request(message_type, &request, &test_connection_limits())
                .expect("the request has a budget");
        let mut state = LegacyResponseReadState::new(budget);
        assert_eq!(state.validate_nil(99, &99u64.to_le_bytes()), Ok(()));
        assert_eq!(state.items, 0);
        assert!(state.validate_nil(98, &99u64.to_le_bytes()).is_err());

        let nil = frame(LEGACY_RESPONSE_NIL, with_id(99, &[]));
        assert_frames_validate_at_transport(message_type, &request, &[nil.clone()]);
        // A second frame is one too many.
        let budget =
            LegacyResponseBudget::from_request(message_type, &request, &test_connection_limits())
                .expect("the request has a budget");
        let mut state = LegacyResponseReadState::new(budget);
        assert!(state.validate_frame(99, &nil).is_ok());
        assert_eq!(
            state.validate_frame(99, &nil),
            Err(OutboundRequestError::Fatal(RequestFault::TooManyFrames))
        );
    }
}

fn exchange() -> OutboundExchange {
    OutboundExchange::new(
        OutboundResponseReadState::from_request(
            LEGACY_REQUEST_STREAM_KIND,
            99,
            LEGACY_REQUEST_BLOCKS_BY_HASH,
            &block_list(&[1]),
            &test_connection_limits(),
            false,
        )
        .expect("the request is known"),
    )
}

#[test]
fn outbound_exchange_collects_the_frames_of_its_response() {
    let mut request = exchange();
    let block = frame(LEGACY_RESPONSE_BLOCK, chunk(99, true, b"block"));
    assert!(matches!(
        request.on_read(ResponseRead::Frame(block.clone())),
        ExchangeStep::DecodeItem
    ));
    assert!(matches!(request.on_item_decoded(true), ExchangeStep::Read));
    assert!(matches!(
        request.on_read(ResponseRead::Closed),
        ExchangeStep::Done
    ));
    assert_eq!(request.frames, vec![block]);
}

#[test]
fn outbound_exchange_tells_local_from_fatal_failures() {
    assert_eq!(
        exchange().on_read(ResponseRead::TimedOut),
        ExchangeStep::Failed(OutboundRequestError::Local(RequestFault::ResponseTimeout))
    );
    assert_eq!(
        exchange().on_read(ResponseRead::Oversize),
        ExchangeStep::Failed(OutboundRequestError::Fatal(RequestFault::FrameOversize))
    );
    assert_eq!(
        exchange().on_read(ResponseRead::Failed),
        ExchangeStep::Failed(OutboundRequestError::Fatal(RequestFault::ReadFailed))
    );
    assert_eq!(
        conclude_request(Err(OutboundRequestError::Local(
            RequestFault::ResponseTimeout
        ))),
        RequestConclusion::Refused(RequestFault::ResponseTimeout)
    );
    assert_eq!(
        conclude_request(Err(OutboundRequestError::Fatal(RequestFault::ReadFailed))),
        RequestConclusion::CloseConnection {
            code: 2,
            fault: RequestFault::ReadFailed
        }
    );
    assert_eq!(conclude_request(Ok(())), RequestConclusion::Answered);
}

#[test]
fn echo_requests_need_the_echo_service() {
    let state = |echo_served: bool| {
        OutboundResponseReadState::from_request(
            ZAKURA_STREAM_TEST_ECHO_STATUS,
            1,
            TEST_ECHO_STATUS_REQUEST,
            &[],
            &test_connection_limits(),
            echo_served,
        )
    };
    assert!(matches!(
        state(true),
        Ok(OutboundResponseReadState::TestEchoStatus(_))
    ));
    assert!(matches!(
        state(false),
        Err(OutboundRequestError::Local(
            RequestFault::UnsupportedStreamKind(ZAKURA_STREAM_TEST_ECHO_STATUS)
        ))
    ));
}
