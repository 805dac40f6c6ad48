use vstd::prelude::*;

use super::message_type::{type_from_index, type_index, lemma_type_index_roundtrip, MessageType};
use super::wire::{
    bincode_deserialize_u32, bincode_deserialize_u64, bincode_serialize_u32, bincode_serialize_u64,
    lemma_u32_le_bytes_roundtrip, lemma_u32_le_value_roundtrip, lemma_u64_le_bytes_roundtrip,
    lemma_u64_le_value_roundtrip, u32_from_le, u32_le_bytes, u64_from_le, u64_le_bytes,
};

verus! {

/// Number of bytes of a serialized header: the body length (8 bytes) and the
/// message type (4 bytes).
pub const HEADER_LEN: usize = 12;

/// The fixed-size header that precedes every message body on a stream.
#[derive(Debug, Clone, Copy, PartialEq, Eq, Structural)]
pub struct MessageHeader {
    /// Number of bytes of the body that follows the header.
    pub msg_len: u64,
    /// What the body holds.
    pub msg_type: MessageType,
}

/// Why a header could not be read back from bytes.
#[derive(Debug, Clone, Copy, PartialEq, Eq, Structural)]
pub enum HeaderError {
    /// Fewer than `HEADER_LEN` bytes were given.
    TooShort,
    /// The type field holds an index that names no message type.
    UnknownMessageType(u32),
}

/// The bytes of a header: the body length, then the wire index of the type.
pub open spec fn header_bytes(h: MessageHeader) -> Seq<u8> {
    u64_le_bytes(h.msg_len) + u32_le_bytes(type_index(h.msg_type))
}

/// What reading a header from `b` gives.
pub open spec fn parse_header(b: Seq<u8>) -> Result<MessageHeader, HeaderError> {
    if b.len() < HEADER_LEN {
        Err(HeaderError::TooShort)
    } else {
        let idx = u32_from_le(b.subrange(8, b.len() as int));
        match type_from_index(idx) {
            Some(t) => Ok(MessageHeader { msg_len: u64_from_le(b), msg_type: t }),
            None => Err(HeaderError::UnknownMessageType(idx)),
        }
    }
}

impl MessageHeader {
    /// A header for a body of `msg_len` bytes holding a message of type `msg_type`.
    pub fn new(msg_type: MessageType, msg_len: u64) -> (res: Self)
        ensures
            res.msg_type == msg_type,
            res.msg_len == msg_len,
    {
        MessageHeader { msg_type, msg_len }
    }

    /// The wire form of the header: `HEADER_LEN` bytes, the body length and
    /// then the type index, each little-endian. It always succeeds.
    pub fn serialize(&self) -> (res: Result<Vec<u8>, HeaderError>)
        ensures
            res matches Ok(b) && b@ == header_bytes(*self),
    {
        let len_bytes = bincode_serialize_u64(self.msg_len);
        let type_bytes = bincode_serialize_u32(self.msg_type.index());
        match (len_bytes, type_bytes) {
            (Some(mut out), Some(mut tail)) => {
                out.append(&mut tail);
                Ok(out)
            },
            _ => {
                // bincode never fails on plain integers
                proof {
                    assert(false);
                }
                Err(HeaderError::TooShort)
            },
        }
    }

    /// Reads a header from the first `HEADER_LEN` bytes of `header`; bytes
    /// after those are ignored.
    pub fn deserialize(header: &[u8]) -> (res: Result<MessageHeader, HeaderError>)
        ensures
            res == parse_header(header@),
    {
        if header.len() < HEADER_LEN {
            return Err(HeaderError::TooShort);
        }
        let msg_len = bincode_deserialize_u64(header);
        let idx = bincode_deserialize_u32(&header[8..header.len()]);
        match (msg_len, idx) {
            (Some(msg_len), Some(idx)) => match MessageType::from_index(idx) {
                Some(msg_type) => Ok(MessageHeader { msg_len, msg_type }),
                None => Err(HeaderError::UnknownMessageType(idx)),
            },
            _ => {
                proof {
                    assert(false);
                }
                Err(HeaderError::TooShort)
            },
        }
    }
}

/// A serialized header is `HEADER_LEN` bytes long, and reading it back gives
/// the same header.
pub proof fn lemma_header_roundtrip(h: MessageHeader)
    ensures
        header_bytes(h).len() == HEADER_LEN,
        parse_header(header_bytes(h)) == Ok::<MessageHeader, HeaderError>(h),
{
    let b = header_bytes(h);
    lemma_u64_le_value_roundtrip(h.msg_len);
    lemma_u32_le_value_roundtrip(type_index(h.msg_type));
    lemma_type_index_roundtrip(h.msg_type, 0);
    assert(b.subrange(8, b.len() as int) =~= u32_le_bytes(type_index(h.msg_type)));
    assert(u64_from_le(b) == u64_from_le(u64_le_bytes(h.msg_len)));
}

/// When `HEADER_LEN` bytes read as a header, writing that header gives the
/// same bytes back: every header-sized byte string has at most one reading.
pub proof fn lemma_header_bytes_roundtrip(b: Seq<u8>)
    requires
        b.len() == HEADER_LEN,
        parse_header(b) is Ok,
    ensures
        header_bytes(parse_header(b)->Ok_0) == b,
{
    let h = parse_header(b)->Ok_0;
    let tail = b.subrange(8, 12);
    lemma_u64_le_bytes_roundtrip(b);
    lemma_u32_le_bytes_roundtrip(tail);
    lemma_type_index_roundtrip(h.msg_type, u32_from_le(tail));
    assert(tail.subrange(0, 4) =~= tail);
    assert(header_bytes(h) =~= b.subrange(0, 8) + tail);
    assert(b =~= b.subrange(0, 8) + tail);
}

} // verus!
