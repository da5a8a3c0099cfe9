use zakura::rate::{MessageRateBuckets, RateBucket};
use zakura::streams::{
    admit_bi_stream, check_prelude, is_supported_stream, stream_kind_label, StreamReject,
    StreamService, ZAKURA_STREAM_DISCOVERY, ZAKURA_STREAM_TEST_ECHO_STATUS,
    ZAKURA_STREAM_VERSION_1,
};
use zakura::time::Timestamp;
use zakura::wire::StreamPrelude;

#[test]
fn supported_stream_accepts_known_kinds_at_version_one_only() {
    for kind in [
        0u16,
        1,
        2,
        3,
        ZAKURA_STREAM_DISCOVERY,
        ZAKURA_STREAM_TEST_ECHO_STATUS,
    ] {
        assert!(
            is_supported_stream(kind, ZAKURA_STREAM_VERSION_1, true),
            "known kind {kind} at version 1 must be supported"
        );
        assert!(
            !is_supported_stream(kind, 0, true),
            "known kind {kind} at version 0 must be rejected"
        );
        assert!(
            !is_supported_stream(kind, 2, true),
            "known kind {kind} at an unsupported version must be rejected"
        );
    }

    assert_eq!(stream_kind_label(ZAKURA_STREAM_DISCOVERY, true), "discovery");
    assert_eq!(
        stream_kind_label(ZAKURA_STREAM_TEST_ECHO_STATUS, true),
        "test_echo_status"
    );

    for kind in [7u16, 255, u16::MAX] {
        assert!(
            !is_supported_stream(kind, ZAKURA_STREAM_VERSION_1, true),
            "unknown kind {kind} must be rejected even at version 1"
        );
        assert_eq!(stream_kind_label(kind, true), "unknown");
    }
}

fn prelude(stream_kind: u16, request_id: Option<u64>) -> StreamPrelude {
    StreamPrelude {
        magic: *b"zstr",
        stream_kind,
        stream_version: 1,
        request_id,
        max_frame_bytes: 1_024,
    }
}

#[test]
fn preludes_of_the_wrong_shape_are_rejected() {
    assert_eq!(
        check_prelude(&prelude(77, None), true),
        Some(StreamReject::UnknownKind)
    );
    assert_eq!(
        check_prelude(&prelude(2, Some(1)), true),
        Some(StreamReject::GossipRequestId)
    );
    assert_eq!(
        check_prelude(&prelude(ZAKURA_STREAM_DISCOVERY, Some(1)), true),
        Some(StreamReject::DiscoveryRequestId)
    );
    assert_eq!(
        check_prelude(&prelude(3, None), true),
        Some(StreamReject::RequestWithoutId)
    );
    assert_eq!(check_prelude(&prelude(2, None), true), None);
    assert_eq!(check_prelude(&prelude(3, Some(9)), true), None);
}

#[test]
fn rejects_have_their_codes_and_rarely_end_the_connection() {
    for (reject, code, ends) in [
        (StreamReject::Semaphore, 1, false),
        (StreamReject::Prelude, 2, false),
        (StreamReject::UnknownKind, 5, false),
        (StreamReject::GossipRequestId, 2, true),
        (StreamReject::DiscoveryRequestId, 2, false),
        (StreamReject::RequestWithoutId, 2, true),
        (StreamReject::OpenRate, 3, false),
        (StreamReject::NoDiscovery, 1, false),
    ] {
        assert_eq!(reject.reset_code(), code);
        assert_eq!(reject.cancels_connection(), ends);
    }
}

#[test]
fn admission_spends_rate_only_on_well_formed_streams() {
    let now = Timestamp { nanos: 0 };
    let mut opens = RateBucket::new(1, now);
    let mut messages = MessageRateBuckets::new();

    assert_eq!(
        admit_bi_stream(None, true, &mut opens, &mut messages, 4, true, true, now),
        Err(StreamReject::Prelude)
    );
    assert_eq!(
        admit_bi_stream(
            Some(prelude(77, None)),
            true,
            &mut opens,
            &mut messages,
            4,
            true,
            true,
            now
        ),
        Err(StreamReject::UnknownKind)
    );
    assert_eq!(opens.tokens, 1);
    assert_eq!(messages.len(), 0);

    assert_eq!(
        admit_bi_stream(
            Some(prelude(2, None)),
            true,
            &mut opens,
            &mut messages,
            4,
            true,
            true,
            now
        ),
        Ok(StreamService::OneWay)
    );
    assert_eq!(messages.len(), 1);
    assert_eq!(
        admit_bi_stream(
            Some(prelude(2, None)),
            true,
            &mut opens,
            &mut messages,
            4,
            true,
            true,
            now
        ),
        Err(StreamReject::OpenRate)
    );

    let later = Timestamp {
        nanos: 1_000_000_000,
    };
    assert_eq!(
        admit_bi_stream(
            Some(prelude(3, Some(1))),
            true,
            &mut opens,
            &mut messages,
            4,
            true,
            true,
            later
        ),
        Ok(StreamService::Request)
    );
    let later = Timestamp {
        nanos: 2_000_000_000,
    };
    assert_eq!(
        admit_bi_stream(
            Some(prelude(ZAKURA_STREAM_DISCOVERY, None)),
            true,
            &mut opens,
            &mut messages,
            4,
            false,
            true,
            later
        ),
        Err(StreamReject::NoDiscovery)
    );
    let later = Timestamp {
        nanos: 3_000_000_000,
    };
    assert_eq!(
        admit_bi_stream(
            Some(prelude(ZAKURA_STREAM_DISCOVERY, None)),
            true,
            &mut opens,
            &mut messages,
            4,
            true,
            true,
            later
        ),
        Ok(StreamService::Discovery)
    );
}

#[test]
fn unknown_streams_are_refused_as_such_without_a_place() {
    let now = Timestamp { nanos: 0 };
    let mut opens = RateBucket::new(1, now);
    let mut messages = MessageRateBuckets::new();
    let mut old_version = prelude(2, None);
    old_version.stream_version = 2;
    for has_place in [true, false] {
        for unknown in [prelude(77, None), old_version] {
            let verdict = admit_bi_stream(
                Some(unknown),
                has_place,
                &mut opens,
                &mut messages,
                4,
                true,
                true,
                now,
            );
            assert_eq!(verdict, Err(StreamReject::UnknownKind));
            assert_eq!(StreamReject::UnknownKind.reset_code(), 5);
        }
    }
    // Without a place every other stream is turned away, whatever its prelude, and the
    // connection goes on.
    for other in [
        None,
        Some(prelude(2, None)),
        Some(prelude(2, Some(1))),
        Some(prelude(3, None)),
        Some(prelude(ZAKURA_STREAM_DISCOVERY, Some(1))),
    ] {
        let verdict = admit_bi_stream(
            other,
            false,
            &mut opens,
            &mut messages,
            4,
            true,
            true,
            now,
        );
        assert_eq!(verdict, Err(StreamReject::Semaphore));
    }
    assert!(!StreamReject::Semaphore.cancels_connection());
    assert_eq!(opens.tokens, 1);
    assert_eq!(messages.len(), 0);
}

#[test]
fn echo_streams_are_unknown_unless_served() {
    let echo = ZAKURA_STREAM_TEST_ECHO_STATUS;
    assert!(!is_supported_stream(echo, ZAKURA_STREAM_VERSION_1, false));
    assert_eq!(stream_kind_label(echo, false), "unknown");
    assert_eq!(
        check_prelude(&prelude(echo, Some(1)), false),
        Some(StreamReject::UnknownKind)
    );
    assert_eq!(check_prelude(&prelude(echo, Some(1)), true), None);
    assert!(is_supported_stream(
        ZAKURA_STREAM_DISCOVERY,
        ZAKURA_STREAM_VERSION_1,
        false
    ));
}
