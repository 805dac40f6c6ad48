use vstd::prelude::*;

use super::message_header::{
    header_bytes, lemma_header_roundtrip, parse_header, HeaderError, MessageHeader, HEADER_LEN,
};
use super::message_type::MessageType;
use super::wire::{u32_from_le, u64_from_le};

verus! {

/// What zstd's `encode_all` at the default level makes of `data`.
pub uninterp spec fn zstd_compressed(data: Seq<u8>) -> Seq<u8>;

/// What zstd's `decode_all` makes of `data`; `None` where it reports an error.
pub uninterp spec fn zstd_decompressed(data: Seq<u8>) -> Option<Seq<u8>>;

/// Calls `zstd::encode_all(data, 0)` (level 0 is zstd's default level).
/// Reading from a slice and writing into a `Vec` cannot fail, so the call
/// succeeds and gives the compressed frame of `data`.
#[verifier::external_body]
fn zstd_compress(data: &[u8]) -> (res: Option<Vec<u8>>)
    ensures
        res is Some,
        res matches Some(c) ==> c@ == zstd_compressed(data@),
{
    zstd::encode_all(data, 0).ok()
}

/// Calls `zstd::decode_all(data)`. Its result is the decompressed content, or
/// `None` on an error. Decompression is lossless: the compressed frame of `x`
/// decompresses to `x`.
#[verifier::external_body]
fn zstd_decompress(data: &[u8]) -> (res: Option<Vec<u8>>)
    ensures
        res matches Some(v) ==> zstd_decompressed(data@) == Some(v@),
        res is None ==> zstd_decompressed(data@) is None,
        forall|x: Seq<u8>| #[trigger] zstd_compressed(x) == data@ ==> (res is Some && res.unwrap()@ == x),
{
    zstd::decode_all(data).ok()
}

/// Why a message could not be framed or a frame could not be opened.
#[derive(Debug, Clone, Copy, PartialEq, Eq, Structural)]
pub enum FrameError {
    /// zstd failed to decompress the body.
    Decompression,
    /// The header could not be read.
    Header(HeaderError),
    /// The body is longer than the header announces.
    BodyTooLong,
}

/// Whether the body of a message of this type travels compressed: the server
/// compresses its checksum responses and its block data, nothing else.
pub open spec fn spec_compressed_on_wire(t: MessageType) -> bool {
    t == MessageType::ChecksumsResponse || t == MessageType::BlockData
}

/// Whether the body of a message of type `t` travels compressed.
pub fn compressed_on_wire(t: MessageType) -> (res: bool)
    ensures
        res == spec_compressed_on_wire(t),
{
    match t {
        MessageType::ChecksumsResponse | MessageType::BlockData => true,
        _ => false,
    }
}

/// The body as it travels: the serialized message, compressed when asked.
pub open spec fn wire_body(message: Seq<u8>, compress: bool) -> Seq<u8> {
    if compress {
        zstd_compressed(message)
    } else {
        message
    }
}

/// A complete frame: the header announcing `body`, then `body`.
pub open spec fn frame_bytes(t: MessageType, body: Seq<u8>) -> Seq<u8> {
    header_bytes(MessageHeader { msg_len: body.len() as u64, msg_type: t }) + body
}

/// Frames a serialized message of type `message_type`: compresses it when
/// `compress` is set, then puts the header in front. It always succeeds.
pub fn message_serialize_and_frame(message_type: MessageType, message: &[u8], compress: bool) -> (res:
    Result<Vec<u8>, FrameError>)
    ensures
        res is Ok,
        res matches Ok(f) ==> f@ == frame_bytes(message_type, wire_body(message@, compress)),
{
    let mut body: Vec<u8> = if compress {
        zstd_compress(message).unwrap()
    } else {
        vstd::slice::slice_to_vec(message)
    };
    let header = MessageHeader::new(message_type, body.len() as u64);
    match header.serialize() {
        Ok(mut out) => {
            out.append(&mut body);
            Ok(out)
        },
        Err(e) => {
            proof {
                assert(false);
            }
            Err(FrameError::Header(e))
        },
    }
}

/// Opens the body that followed `header` on the stream: checks that it is no
/// longer than announced (a stream may end early) and decompresses it when
/// its type travels compressed.
pub fn open_message_body(header: &MessageHeader, body: &[u8]) -> (res: Result<Vec<u8>, FrameError>)
    ensures
        body@.len() > header.msg_len ==> res == Err::<Vec<u8>, FrameError>(
            FrameError::BodyTooLong,
        ),
        body@.len() <= header.msg_len && !spec_compressed_on_wire(header.msg_type) ==> (res matches Ok(
            v,
        ) && v@ == body@),
        body@.len() <= header.msg_len && spec_compressed_on_wire(header.msg_type) ==> match res {
            Ok(v) => zstd_decompressed(body@) == Some(v@),
            Err(e) => e == FrameError::Decompression && zstd_decompressed(body@) is None,
        },
        body@.len() <= header.msg_len && spec_compressed_on_wire(header.msg_type) ==> forall|
            x: Seq<u8>,
        | #[trigger] zstd_compressed(x) == body@ ==> (res matches Ok(v) && v@ == x),
{
    if body.len() as u64 > header.msg_len {
        return Err(FrameError::BodyTooLong);
    }
    if compressed_on_wire(header.msg_type) {
        match zstd_decompress(body) {
            Some(v) => Ok(v),
            None => Err(FrameError::Decompression),
        }
    } else {
        Ok(vstd::slice::slice_to_vec(body))
    }
}

/// Reads a whole frame: its header, then its body, which is the rest of
/// `frame` and must not be longer than announced. A frame made by `message_serialize_and_frame` with the
/// compression that its type travels with reads back as the type and the
/// message that went in.
pub fn unframe_message(frame: &[u8]) -> (res: Result<(MessageType, Vec<u8>), FrameError>)
    ensures
        parse_header(frame@) matches Err(e) ==> res == Err::<(MessageType, Vec<u8>), FrameError>(
            FrameError::Header(e),
        ),
        parse_header(frame@) matches Ok(h) ==> ({
            let body = frame@.skip(HEADER_LEN as int);
            &&& body.len() > h.msg_len ==> res == Err::<(MessageType, Vec<u8>), FrameError>(
                FrameError::BodyTooLong,
            )
            &&& body.len() <= h.msg_len && !spec_compressed_on_wire(h.msg_type) ==> (res matches Ok(
                r,
            ) && r.0 == h.msg_type && r.1@ == body)
            &&& body.len() <= h.msg_len && spec_compressed_on_wire(h.msg_type) ==> match res {
                Ok(r) => r.0 == h.msg_type && zstd_decompressed(body) == Some(r.1@),
                Err(e) => e == FrameError::Decompression && zstd_decompressed(body) is None,
            }
        }),
        forall|t: MessageType, m: Seq<u8>|
            #![trigger frame_bytes(t, wire_body(m, spec_compressed_on_wire(t)))]
            frame@ == frame_bytes(t, wire_body(m, spec_compressed_on_wire(t))) ==> (res matches Ok(
                r,
            ) && r.0 == t && r.1@ == m),
{
    let frame_len = frame.len();
    let header = match MessageHeader::deserialize(frame) {
        Ok(h) => h,
        Err(e) => {
            proof {
                assert forall|t: MessageType, m: Seq<u8>|
                    #![trigger frame_bytes(t, wire_body(m, spec_compressed_on_wire(t)))]
                    frame@ != frame_bytes(t, wire_body(m, spec_compressed_on_wire(t))) by {
                    let b = wire_body(m, spec_compressed_on_wire(t));
                    if frame@ == frame_bytes(t, b) {
                        assert(frame@.len() == frame_len);
                        assert(b.len() <= frame@.len());
                        lemma_frame_layout(t, b);
                    }
                }
            }
            return Err(FrameError::Header(e));
        },
    };
    let body = &frame[HEADER_LEN..frame.len()];
    assert(body@ == frame@.skip(HEADER_LEN as int));
    let opened = open_message_body(&header, body);
    proof {
        assert forall|t: MessageType, m: Seq<u8>|
            #![trigger frame_bytes(t, wire_body(m, spec_compressed_on_wire(t)))]
            frame@ == frame_bytes(t, wire_body(m, spec_compressed_on_wire(t))) implies (
        opened matches Ok(v) && header.msg_type == t && v@ == m) by {
            lemma_frame_layout(t, wire_body(m, spec_compressed_on_wire(t)));
        }
    }
    match opened {
        Ok(v) => Ok((header.msg_type, v)),
        Err(e) => Err(e),
    }
}

/// A frame starts with the header that announces its body, and the body fills
/// the rest of the frame.
pub proof fn lemma_frame_layout(t: MessageType, body: Seq<u8>)
    requires
        body.len() <= u64::MAX,
    ensures
        ({
            let f = frame_bytes(t, body);
            &&& parse_header(f) == Ok::<MessageHeader, HeaderError>(
                MessageHeader { msg_len: body.len() as u64, msg_type: t },
            )
            &&& f.skip(HEADER_LEN as int) == body
            &&& f.len() == HEADER_LEN + body.len()
        }),
{
    let h = MessageHeader { msg_len: body.len() as u64, msg_type: t };
    let f = frame_bytes(t, body);
    lemma_header_roundtrip(h);
    let hb = header_bytes(h);
    assert(f.subrange(0, HEADER_LEN as int) =~= hb);
    assert(f.skip(HEADER_LEN as int) =~= body);
    assert(f[0] == hb[0] && f[1] == hb[1] && f[2] == hb[2] && f[3] == hb[3]);
    assert(f[4] == hb[4] && f[5] == hb[5] && f[6] == hb[6] && f[7] == hb[7]);
    assert(u64_from_le(f) == u64_from_le(hb));
    let ft = f.subrange(8, f.len() as int);
    let ht = hb.subrange(8, hb.len() as int);
    assert(ft[0] == ht[0] && ft[1] == ht[1] && ft[2] == ht[2] && ft[3] == ht[3]);
    assert(u32_from_le(ft) == u32_from_le(ht));
}

} // verus!
