//! Byte layout of stream preludes, frames and control payloads.

use crate::error::{ZakuraHandlerError, ZakuraProtocolError};
use crate::types::{copy_bytes, Frame, FrameView};
use vstd::prelude::*;

verus! {

/// Bytes of a prelude up to and including the request-id marker.
pub const STREAM_PRELUDE_FIXED_BYTES: usize = 9;

/// Bytes of a request id.
pub const STREAM_PRELUDE_REQUEST_ID_BYTES: usize = 8;

/// Bytes of a prelude's frame cap.
pub const STREAM_PRELUDE_CAP_BYTES: usize = 4;

/// Bytes of a frame header.
pub const FRAME_HEADER_BYTES: usize = 8;

/// Bytes of a control length.
pub const CONTROL_LENGTH_BYTES: usize = 4;

/// The number that the first two bytes encode, least significant byte first.
pub open spec fn le_u16(bytes: Seq<u8>) -> int {
    bytes[0] + 0x100 * bytes[1]
}

/// The number that the first four bytes encode, least significant byte first.
pub open spec fn le_u32(bytes: Seq<u8>) -> int {
    bytes[0] + 0x100 * bytes[1] + 0x1_0000 * bytes[2] + 0x100_0000 * bytes[3]
}

/// The number that the first eight bytes encode, least significant byte first.
pub open spec fn le_u64(bytes: Seq<u8>) -> int {
    le_u32(bytes) + 0x1_0000_0000 * le_u32(bytes.skip(4))
}

/// Reads two bytes: calls `byteorder::ByteOrder::read_u16` of `LittleEndian`, which
/// decodes the first two bytes least significant first and panics on fewer.
#[verifier::external_body]
pub(crate) fn read_u16(bytes: &[u8]) -> (value: u16)
    requires
        bytes@.len() >= 2,
    ensures
        value == le_u16(bytes@),
{
    <byteorder::LittleEndian as byteorder::ByteOrder>::read_u16(bytes)
}

/// Reads four bytes: calls `byteorder::ByteOrder::read_u32` of `LittleEndian`, which
/// decodes the first four bytes least significant first and panics on fewer.
#[verifier::external_body]
pub(crate) fn read_u32(bytes: &[u8]) -> (value: u32)
    requires
        bytes@.len() >= 4,
    ensures
        value == le_u32(bytes@),
{
    <byteorder::LittleEndian as byteorder::ByteOrder>::read_u32(bytes)
}

/// Reads eight bytes: calls `byteorder::ByteOrder::read_u64` of `LittleEndian`, which
/// decodes the first eight bytes least significant first and panics on fewer.
#[verifier::external_body]
pub(crate) fn read_u64(bytes: &[u8]) -> (value: u64)
    requires
        bytes@.len() >= 8,
    ensures
        value == le_u64(bytes@),
{
    <byteorder::LittleEndian as byteorder::ByteOrder>::read_u64(bytes)
}

/// The two bytes of a number: calls `byteorder::ByteOrder::write_u16` of `LittleEndian`,
/// which encodes the number least significant byte first.
#[verifier::external_body]
fn u16_bytes(value: u16) -> (bytes: [u8; 2])
    ensures
        le_u16(bytes@) == value,
{
    let mut bytes = [0u8; 2];
    <byteorder::LittleEndian as byteorder::ByteOrder>::write_u16(&mut bytes, value);
    bytes
}

/// The four bytes of a number: calls `byteorder::ByteOrder::write_u32` of
/// `LittleEndian`, which encodes the number least significant byte first.
#[verifier::external_body]
fn u32_bytes(value: u32) -> (bytes: [u8; 4])
    ensures
        le_u32(bytes@) == value,
{
    let mut bytes = [0u8; 4];
    <byteorder::LittleEndian as byteorder::ByteOrder>::write_u32(&mut bytes, value);
    bytes
}

/// The eight bytes of a number: calls `byteorder::ByteOrder::write_u64` of
/// `LittleEndian`, which encodes the number least significant byte first.
#[verifier::external_body]
pub(crate) fn u64_bytes(value: u64) -> (bytes: [u8; 8])
    ensures
        le_u64(bytes@) == value,
{
    let mut bytes = [0u8; 8];
    <byteorder::LittleEndian as byteorder::ByteOrder>::write_u64(&mut bytes, value);
    bytes
}

/// The prelude that opens every application stream.
#[derive(Copy, Clone, Debug, PartialEq, Eq)]
pub struct StreamPrelude {
    /// Magic bytes.
    pub magic: [u8; 4],
    /// Stream kind.
    pub stream_kind: u16,
    /// Version of the stream kind.
    pub stream_version: u16,
    /// Request id of a request stream.
    pub request_id: Option<u64>,
    /// Largest frame that the opener accepts.
    pub max_frame_bytes: u32,
}

/// The part of a prelude that is read first.
#[derive(Copy, Clone, Debug, PartialEq, Eq, Structural)]
pub struct PreludeHead {
    /// Stream kind.
    pub stream_kind: u16,
    /// Version of the stream kind.
    pub stream_version: u16,
    /// Whether a request id follows.
    pub has_request_id: bool,
}

impl PreludeHead {
    /// How many bytes of the prelude follow the head.
    pub open spec fn spec_rest_len(self) -> nat {
        if self.has_request_id {
            12
        } else {
            4
        }
    }

    /// How many bytes of the prelude follow the head.
    pub fn rest_len(&self) -> (len: usize)
        ensures
            len == self.spec_rest_len(),
    {
        if self.has_request_id {
            STREAM_PRELUDE_REQUEST_ID_BYTES + STREAM_PRELUDE_CAP_BYTES
        } else {
            STREAM_PRELUDE_CAP_BYTES
        }
    }
}

/// What the first nine bytes of a prelude say.
pub open spec fn prelude_head(fixed: Seq<u8>, magic: Seq<u8>) -> Result<
    PreludeHead,
    ZakuraProtocolError,
> {
    if fixed.take(4) != magic {
        Err(ZakuraProtocolError::InvalidMagic)
    } else if fixed[8] > 1 {
        Err(ZakuraProtocolError::InvalidFlag(fixed[8]))
    } else {
        Ok(
            PreludeHead {
                stream_kind: le_u16(fixed.skip(4)) as u16,
                stream_version: le_u16(fixed.skip(6)) as u16,
                has_request_id: fixed[8] == 1,
            },
        )
    }
}

/// Decodes the first nine bytes of a prelude: four magic bytes, the kind, the version
/// and the request-id marker.
pub fn decode_prelude_head(fixed: &[u8], magic: &[u8; 4]) -> (head: Result<
    PreludeHead,
    ZakuraProtocolError,
>)
    requires
        fixed@.len() == STREAM_PRELUDE_FIXED_BYTES,
    ensures
        head == prelude_head(fixed@, magic@),
{
    if fixed[0] != magic[0] || fixed[1] != magic[1] || fixed[2] != magic[2] || fixed[3]
        != magic[3] {
        proof {
            let i: int = if fixed[0] != magic[0] {
                0
            } else if fixed[1] != magic[1] {
                1
            } else if fixed[2] != magic[2] {
                2
            } else {
                3
            };
            assert(fixed@.take(4)[i] == fixed@[i]);
            assert(fixed@.take(4)[i] != magic@[i]);
        }
        return Err(ZakuraProtocolError::InvalidMagic);
    }
    assert(fixed@.take(4) =~= magic@);
    let marker = fixed[8];
    if marker > 1 {
        return Err(ZakuraProtocolError::InvalidFlag(marker));
    }
    let kind_bytes = vstd::slice::slice_subrange(fixed, 4, 9);
    let version_bytes = vstd::slice::slice_subrange(fixed, 6, 9);
    assert(kind_bytes@ =~= fixed@.skip(4));
    assert(version_bytes@ =~= fixed@.skip(6));
    Ok(
        PreludeHead {
            stream_kind: read_u16(kind_bytes),
            stream_version: read_u16(version_bytes),
            has_request_id: marker == 1,
        },
    )
}

/// The prelude that a head and the bytes after it make up.
pub open spec fn prelude_of(head: PreludeHead, rest: Seq<u8>, magic: [u8; 4]) -> StreamPrelude {
    StreamPrelude {
        magic,
        stream_kind: head.stream_kind,
        stream_version: head.stream_version,
        request_id: if head.has_request_id {
            Some(le_u64(rest) as u64)
        } else {
            None
        },
        max_frame_bytes: le_u32(
            if head.has_request_id {
                rest.skip(8)
            } else {
                rest
            },
        ) as u32,
    }
}

/// Decodes what follows the head of a prelude: the request id, if there is one, and the
/// frame cap.
pub fn complete_prelude(head: PreludeHead, rest: &[u8], magic: &[u8; 4]) -> (prelude: StreamPrelude)
    requires
        rest@.len() == head.spec_rest_len(),
    ensures
        prelude == prelude_of(head, rest@, *magic),
{
    if head.has_request_id {
        let cap_bytes = vstd::slice::slice_subrange(rest, 8, 12);
        assert(cap_bytes@ =~= rest@.skip(8));
        StreamPrelude {
            magic: *magic,
            stream_kind: head.stream_kind,
            stream_version: head.stream_version,
            request_id: Some(read_u64(rest)),
            max_frame_bytes: read_u32(cap_bytes),
        }
    } else {
        StreamPrelude {
            magic: *magic,
            stream_kind: head.stream_kind,
            stream_version: head.stream_version,
            request_id: None,
            max_frame_bytes: read_u32(rest),
        }
    }
}

impl StreamPrelude {
    /// Whether `bytes` are the bytes of this prelude.
    pub open spec fn encoded_as(self, bytes: Seq<u8>) -> bool {
        &&& bytes.len() == (if self.request_id is Some {
            21int
        } else {
            13
        })
        &&& bytes.take(4) == self.magic@
        &&& le_u16(bytes.skip(4)) == self.stream_kind
        &&& le_u16(bytes.skip(6)) == self.stream_version
        &&& match self.request_id {
            Some(id) => bytes[8] == 1 && le_u64(bytes.skip(9)) == id && le_u32(bytes.skip(17))
                == self.max_frame_bytes,
            None => bytes[8] == 0 && le_u32(bytes.skip(9)) == self.max_frame_bytes,
        }
    }

    /// The bytes of this prelude.
    pub fn encode(&self) -> (bytes: Vec<u8>)
        ensures
            self.encoded_as(bytes@),
    {
        let mut bytes: Vec<u8> = Vec::new();
        push_all(&mut bytes, self.magic.as_slice());
        let kind = u16_bytes(self.stream_kind);
        push_all(&mut bytes, kind.as_slice());
        let version = u16_bytes(self.stream_version);
        push_all(&mut bytes, version.as_slice());
        match self.request_id {
            Some(id) => {
                bytes.push(1);
                let id_bytes = u64_bytes(id);
                push_all(&mut bytes, id_bytes.as_slice());
                let cap = u32_bytes(self.max_frame_bytes);
                push_all(&mut bytes, cap.as_slice());
                proof {
                    assert(bytes@.take(4) =~= self.magic@);
                    assert(bytes@.skip(9).skip(4) =~= bytes@.skip(13));
                    assert(id_bytes@.skip(4)[0] == id_bytes@[4]);
                    assert(id_bytes@.skip(4)[1] == id_bytes@[5]);
                    assert(id_bytes@.skip(4)[2] == id_bytes@[6]);
                    assert(id_bytes@.skip(4)[3] == id_bytes@[7]);
                }
            },
            None => {
                bytes.push(0);
                let cap = u32_bytes(self.max_frame_bytes);
                push_all(&mut bytes, cap.as_slice());
                assert(bytes@.take(4) =~= self.magic@);
            },
        }
        bytes
    }
}

/// Appends `more` to `bytes`.
pub(crate) fn push_all(bytes: &mut Vec<u8>, more: &[u8])
    ensures
        final(bytes)@ == old(bytes)@ + more@,
{
    let mut i: usize = 0;
    while i < more.len()
        invariant
            i <= more@.len(),
            bytes@ == old(bytes)@ + more@.take(i as int),
        decreases more@.len() - i,
    {
        bytes.push(more[i]);
        i = i + 1;
        assert(bytes@ =~= old(bytes)@ + more@.take(i as int));
    }
    assert(more@.take(i as int) =~= more@);
}

/// Reading the bytes of a prelude gives the prelude back.
pub proof fn law_prelude_round_trip(prelude: StreamPrelude, bytes: Seq<u8>)
    requires
        prelude.encoded_as(bytes),
    ensures
        prelude_head(bytes.take(9), prelude.magic@) matches Ok(head) && bytes.len() == 9
            + head.spec_rest_len() && prelude_of(head, bytes.skip(9), prelude.magic) == prelude,
{
    let fixed = bytes.take(9);
    assert(fixed.take(4) =~= bytes.take(4));
    assert(fixed.skip(4)[0] == bytes.skip(4)[0] && fixed.skip(4)[1] == bytes.skip(4)[1]);
    assert(fixed.skip(6)[0] == bytes.skip(6)[0] && fixed.skip(6)[1] == bytes.skip(6)[1]);
    if prelude.request_id is Some {
        assert(bytes.skip(9).skip(8) =~= bytes.skip(17));
    }
}

/// The fields of a frame header.
#[derive(Copy, Clone, Debug, PartialEq, Eq, Structural)]
pub struct FrameHeader {
    /// Message type.
    pub message_type: u16,
    /// Flags.
    pub flags: u16,
    /// Length of the payload that follows.
    pub payload_len: usize,
}

/// What a frame header says under a frame cap.
pub open spec fn frame_header(header: Seq<u8>, max_frame_bytes: u32) -> Result<
    FrameHeader,
    ZakuraHandlerError,
> {
    if FRAME_HEADER_BYTES + le_u32(header.skip(4)) > max_frame_bytes {
        Err(ZakuraHandlerError::Oversize)
    } else {
        Ok(
            FrameHeader {
                message_type: le_u16(header) as u16,
                flags: le_u16(header.skip(2)) as u16,
                payload_len: le_u32(header.skip(4)) as usize,
            },
        )
    }
}

/// Decodes a frame header and holds the declared length against the frame cap before
/// any payload is read.
pub fn decode_frame_header(header: &[u8], max_frame_bytes: u32) -> (decoded: Result<
    FrameHeader,
    ZakuraHandlerError,
>)
    requires
        header@.len() == FRAME_HEADER_BYTES,
    ensures
        decoded == frame_header(header@, max_frame_bytes),
{
    let flags_bytes = vstd::slice::slice_subrange(header, 2, 8);
    let len_bytes = vstd::slice::slice_subrange(header, 4, 8);
    assert(flags_bytes@ =~= header@.skip(2));
    assert(len_bytes@ =~= header@.skip(4));
    let message_type = read_u16(header);
    let flags = read_u16(flags_bytes);
    let payload_len: usize = read_u32(len_bytes) as usize;
    let max_frame_bytes: usize = max_frame_bytes as usize;
    if payload_len > max_frame_bytes || FRAME_HEADER_BYTES > max_frame_bytes - payload_len {
        return Err(ZakuraHandlerError::Oversize);
    }
    Ok(FrameHeader { message_type, flags, payload_len })
}

/// Whether `bytes` are the bytes of `frame`.
pub open spec fn frame_encoded_as(frame: FrameView, bytes: Seq<u8>) -> bool {
    &&& bytes.len() == FRAME_HEADER_BYTES + frame.payload.len()
    &&& le_u16(bytes) == frame.message_type
    &&& le_u16(bytes.skip(2)) == frame.flags
    &&& le_u32(bytes.skip(4)) == frame.payload.len()
    &&& bytes.skip(8) == frame.payload
}

impl Frame {
    /// The bytes of this frame, unless they exceed the frame cap.
    pub fn encode(&self, max_frame_bytes: u32) -> (encoded: Result<Vec<u8>, ZakuraHandlerError>)
        ensures
            match encoded {
                Ok(bytes) => FRAME_HEADER_BYTES + self.payload@.len() <= max_frame_bytes
                    && frame_encoded_as(self@, bytes@),
                Err(error) => FRAME_HEADER_BYTES + self.payload@.len() > max_frame_bytes && error
                    == ZakuraHandlerError::Oversize,
            },
    {
        let len = self.payload.len();
        let max: usize = max_frame_bytes as usize;
        if len > max || FRAME_HEADER_BYTES > max - len {
            return Err(ZakuraHandlerError::Oversize);
        }
        let mut bytes: Vec<u8> = Vec::new();
        let message_type = u16_bytes(self.message_type);
        push_all(&mut bytes, message_type.as_slice());
        let flags = u16_bytes(self.flags);
        push_all(&mut bytes, flags.as_slice());
        let length = u32_bytes(len as u32);
        push_all(&mut bytes, length.as_slice());
        push_all(&mut bytes, self.payload.as_slice());
        assert(bytes@.skip(8) =~= self.payload@);
        Ok(bytes)
    }
}

/// Reading the bytes of a frame under the cap it was written under gives the frame back.
pub proof fn law_frame_round_trip(frame: FrameView, bytes: Seq<u8>, max_frame_bytes: u32)
    requires
        frame_encoded_as(frame, bytes),
        FRAME_HEADER_BYTES + frame.payload.len() <= max_frame_bytes,
    ensures
        frame_header(bytes.take(8), max_frame_bytes) matches Ok(header) && header.message_type
            == frame.message_type && header.flags == frame.flags && header.payload_len
            == frame.payload.len() && bytes.skip(8) == frame.payload,
{
    let header = bytes.take(8);
    assert(header.skip(2)[0] == bytes.skip(2)[0] && header.skip(2)[1] == bytes.skip(2)[1]);
    assert(header.skip(4)[0] == bytes.skip(4)[0] && header.skip(4)[1] == bytes.skip(4)[1]
        && header.skip(4)[2] == bytes.skip(4)[2] && header.skip(4)[3] == bytes.skip(4)[3]);
}

/// The length that a control length prefix declares, under a cap.
pub open spec fn control_length(prefix: Seq<u8>, max_bytes: u32) -> Result<
    usize,
    ZakuraHandlerError,
> {
    let len = le_u32(prefix);
    if len == 0 || len > max_bytes {
        Err(ZakuraHandlerError::Oversize)
    } else {
        Ok(len as usize)
    }
}

/// Decodes a control length: an empty payload and one above the cap are refused.
pub fn decode_control_length(prefix: &[u8], max_bytes: u32) -> (len: Result<
    usize,
    ZakuraHandlerError,
>)
    requires
        prefix@.len() == CONTROL_LENGTH_BYTES,
    ensures
        len == control_length(prefix@, max_bytes),
{
    let len = read_u32(prefix);
    if len == 0 || len > max_bytes {
        return Err(ZakuraHandlerError::Oversize);
    }
    Ok(len as usize)
}

/// Whether `bytes` are `payload` with its length in front. The length of a payload of
/// four gibibytes or more is cut to its low 32 bits.
pub open spec fn control_encoded_as(payload: Seq<u8>, bytes: Seq<u8>) -> bool {
    &&& bytes.len() == CONTROL_LENGTH_BYTES + payload.len()
    &&& le_u32(bytes) == payload.len() as int % 0x1_0000_0000int
    &&& bytes.skip(4) == payload
}

/// A control payload with its length in front.
pub fn encode_control_payload(payload: &[u8]) -> (bytes: Vec<u8>)
    ensures
        control_encoded_as(payload@, bytes@),
{
    let len: u64 = payload.len() as u64;
    let declared: u32 = #[verifier::truncate] (len as u32);
    assert(declared == len % 0x1_0000_0000u64) by (bit_vector)
        requires
            declared == len as u32,
    ;
    let prefix = u32_bytes(declared);
    let mut bytes = copy_bytes(prefix.as_slice());
    push_all(&mut bytes, payload);
    assert(bytes@.skip(4) =~= payload@);
    bytes
}

/// A control payload within the reader's cap is read back as it was written.
pub proof fn law_control_payload_round_trip(payload: Seq<u8>, bytes: Seq<u8>, max_bytes: u32)
    requires
        1 <= payload.len() <= max_bytes,
        control_encoded_as(payload, bytes),
    ensures
        control_length(bytes.take(4), max_bytes) matches Ok(len) && len == payload.len()
            && bytes.skip(4) == payload,
{
    assert(payload.len() as int % 0x1_0000_0000int == payload.len());
}

} // verus!
