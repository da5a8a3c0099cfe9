use zakura::error::{ZakuraHandlerError, ZakuraProtocolError};
use zakura::types::Frame;
use zakura::wire::{
    complete_prelude, decode_control_length, decode_frame_header, decode_prelude_head,
    encode_control_payload, StreamPrelude,
};

const MAGIC: [u8; 4] = *b"zstr";

fn decode(bytes: &[u8]) -> Result<StreamPrelude, ZakuraProtocolError> {
    let head = decode_prelude_head(&bytes[..9], &MAGIC)?;
    assert_eq!(bytes.len(), 9 + head.rest_len());
    Ok(complete_prelude(head, &bytes[9..], &MAGIC))
}

#[test]
fn preludes_are_little_endian() {
    let bytes = [
        b'z', b's', b't', b'r', 3, 0, 1, 0, 1, 8, 7, 6, 5, 4, 3, 2, 1, 0, 4, 0, 0,
    ];
    let prelude = decode(&bytes).expect("the prelude is well formed");
    assert_eq!(
        prelude,
        StreamPrelude {
            magic: MAGIC,
            stream_kind: 3,
            stream_version: 1,
            request_id: Some(0x0102_0304_0506_0708),
            max_frame_bytes: 1_024,
        }
    );
    assert_eq!(prelude.encode(), bytes);
}

#[test]
fn preludes_without_a_request_id_are_shorter() {
    let prelude = StreamPrelude {
        magic: MAGIC,
        stream_kind: 0x1234,
        stream_version: 0x0001,
        request_id: None,
        max_frame_bytes: u32::MAX,
    };
    let bytes = prelude.encode();
    assert_eq!(
        bytes,
        [b'z', b's', b't', b'r', 0x34, 0x12, 1, 0, 0, 255, 255, 255, 255]
    );
    assert_eq!(decode(&bytes), Ok(prelude));
}

#[test]
fn malformed_prelude_heads_are_refused() {
    assert_eq!(
        decode_prelude_head(b"zstq\x02\x00\x01\x00\x00", &MAGIC),
        Err(ZakuraProtocolError::InvalidMagic)
    );
    assert_eq!(
        decode_prelude_head(b"zstr\x02\x00\x01\x00\x02", &MAGIC),
        Err(ZakuraProtocolError::InvalidFlag(2))
    );
}

#[test]
fn frames_round_trip_within_their_cap() {
    let frame = Frame {
        message_type: 0x0102,
        flags: 0x0304,
        payload: vec![9, 8, 7],
    };
    let bytes = frame.encode(11).expect("the frame fits");
    assert_eq!(bytes, [2, 1, 4, 3, 3, 0, 0, 0, 9, 8, 7]);
    let header = decode_frame_header(&bytes[..8], 11).expect("the header is well formed");
    assert_eq!(header.message_type, 0x0102);
    assert_eq!(header.flags, 0x0304);
    assert_eq!(header.payload_len, 3);

    assert_eq!(frame.encode(10), Err(ZakuraHandlerError::Oversize));
    assert_eq!(
        decode_frame_header(&bytes[..8], 10),
        Err(ZakuraHandlerError::Oversize)
    );
}

#[test]
fn control_payloads_carry_their_length() {
    let bytes = encode_control_payload(&[5, 6]);
    assert_eq!(bytes, [2, 0, 0, 0, 5, 6]);
    assert_eq!(decode_control_length(&bytes[..4], 2), Ok(2));
    assert_eq!(
        decode_control_length(&bytes[..4], 1),
        Err(ZakuraHandlerError::Oversize)
    );
    assert_eq!(
        decode_control_length(&[0, 0, 0, 0], 100),
        Err(ZakuraHandlerError::Oversize)
    );
}
