use zakura::echo_status::{
    encode_test_echo_status_response_payload, test_echo_status_response_payload,
    TestEchoStatusResponseReadState, TEST_ECHO_STATUS_REQUEST, TEST_ECHO_STATUS_RESPONSE,
};
use zakura::inventory::MAX_PROTOCOL_MESSAGE_LEN;
use zakura::legacy_response::LEGACY_RESPONSE_REQUEST_ID_BYTES;
use zakura::limits::ZakuraConnectionLimits;
use zakura::outbound::{OutboundRequestError, RequestFault};
use zakura::time::Duration;
use zakura::types::Frame;

fn test_connection_limits() -> ZakuraConnectionLimits {
    let max_protocol_message_len =
        u32::try_from(MAX_PROTOCOL_MESSAGE_LEN).expect("protocol message length fits in u32");

    ZakuraConnectionLimits {
        max_frame_bytes: max_protocol_message_len,
        max_message_bytes: max_protocol_message_len,
        max_open_streams: 16,
        max_inbound_queue_depth: 16,
        idle_timeout: Duration::from_secs(1),
        prelude_timeout: Duration::from_secs(1),
        control_timeout: Duration::from_secs(1),
        stream_open_rate_per_second: 16,
        message_rate_per_second: 128,
    }
}

fn test_echo_status_response_state(request_id: u64) -> TestEchoStatusResponseReadState {
    TestEchoStatusResponseReadState::new(
        request_id,
        TEST_ECHO_STATUS_REQUEST,
        &test_connection_limits(),
    )
    .expect("test connection limits fit in usize")
}

fn test_echo_status_response_frame(request_id: u64, payload: &[u8]) -> Frame {
    Frame {
        message_type: TEST_ECHO_STATUS_RESPONSE,
        flags: 0,
        payload: encode_test_echo_status_response_payload(request_id, payload),
    }
}

#[test]
fn test_echo_status_response_validator_accepts_one_matching_frame() {
    let request_id = 42;
    let mut state = TestEchoStatusResponseReadState::new(
        request_id,
        TEST_ECHO_STATUS_REQUEST,
        &test_connection_limits(),
    )
    .expect("the request is known");
    let frame = test_echo_status_response_frame(request_id, b"ok");

    state.validate_frame(&frame).expect("the frame matches");
    state.finish().expect("the response is complete");
    assert_eq!(
        test_echo_status_response_payload(&frame.payload),
        Ok((request_id, b"ok".as_slice()))
    );
}

#[test]
fn test_echo_status_response_validator_rejects_malformed_frames() {
    let request_id = 42;
    let valid_frame = test_echo_status_response_frame(request_id, b"ok");

    let mut two_frame_state = test_echo_status_response_state(request_id);
    assert!(two_frame_state.validate_frame(&valid_frame).is_ok());
    assert!(two_frame_state.validate_frame(&valid_frame).is_err());

    let mut wrong_type = valid_frame.clone();
    wrong_type.message_type = TEST_ECHO_STATUS_REQUEST;
    assert!(test_echo_status_response_state(request_id)
        .validate_frame(&wrong_type)
        .is_err());

    let mut non_zero_flags = valid_frame.clone();
    non_zero_flags.flags = 1;
    assert!(test_echo_status_response_state(request_id)
        .validate_frame(&non_zero_flags)
        .is_err());

    let mut oversized_limits = test_connection_limits();
    oversized_limits.max_message_bytes =
        u32::try_from(LEGACY_RESPONSE_REQUEST_ID_BYTES).expect("request id length fits in u32");
    let oversized = test_echo_status_response_frame(request_id, b"x");
    let mut oversized_state = TestEchoStatusResponseReadState::new(
        request_id,
        TEST_ECHO_STATUS_REQUEST,
        &oversized_limits,
    )
    .expect("test limits fit in usize");
    assert!(oversized_state.validate_frame(&oversized).is_err());

    let wrong_id = test_echo_status_response_frame(request_id + 1, b"ok");
    assert!(test_echo_status_response_state(request_id)
        .validate_frame(&wrong_id)
        .is_err());

    let truncated_id = Frame {
        message_type: TEST_ECHO_STATUS_RESPONSE,
        flags: 0,
        payload: vec![0; LEGACY_RESPONSE_REQUEST_ID_BYTES - 1],
    };
    assert!(test_echo_status_response_state(request_id)
        .validate_frame(&truncated_id)
        .is_err());
    assert!(test_echo_status_response_payload(&truncated_id.payload).is_err());

    assert!(test_echo_status_response_state(request_id)
        .finish()
        .is_err());
}

#[test]
fn echo_payload_starts_with_its_request_id() {
    let bytes = encode_test_echo_status_response_payload(0x0102, b"hi");
    assert_eq!(bytes, [2, 1, 0, 0, 0, 0, 0, 0, b'h', b'i']);
}

#[test]
fn echo_faults_are_told_apart() {
    let fault = |result: Result<(), OutboundRequestError>| match result {
        Err(OutboundRequestError::Fatal(fault)) => fault,
        other => panic!("expected a fatal fault, got {other:?}"),
    };
    let frame = test_echo_status_response_frame(8, b"ok");
    assert_eq!(
        fault(test_echo_status_response_state(7).validate_frame(&frame)),
        RequestFault::EchoWrongId {
            expected: 7,
            got: 8
        }
    );
    assert_eq!(
        fault(test_echo_status_response_state(7).finish()),
        RequestFault::EchoNoFrames
    );
    assert!(matches!(
        TestEchoStatusResponseReadState::new(7, 9, &test_connection_limits()),
        Err(OutboundRequestError::Local(
            RequestFault::UnsupportedEchoRequest(9)
        ))
    ));
}
