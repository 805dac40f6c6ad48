//! Little-endian fixed-width integers as the protocol writes them, and the
//! calls into bincode that encode and decode them.

use vstd::prelude::*;

verus! {

/// The eight bytes of `v`, least significant first.
pub open spec fn u64_le_bytes(v: u64) -> Seq<u8> {
    seq![
        v as u8, (v >> 8) as u8, (v >> 16) as u8, (v >> 24) as u8,
        (v >> 32) as u8, (v >> 40) as u8, (v >> 48) as u8, (v >> 56) as u8,
    ]
}

/// The value of the first eight bytes of `b`, read least significant first.
pub open spec fn u64_from_le(b: Seq<u8>) -> u64
    recommends
        b.len() >= 8,
{
    (b[0] as u64) | ((b[1] as u64) << 8) | ((b[2] as u64) << 16) | ((b[3] as u64) << 24)
        | ((b[4] as u64) << 32) | ((b[5] as u64) << 40) | ((b[6] as u64) << 48) | ((b[7]
        as u64) << 56)
}

/// The four bytes of `v`, least significant first.
pub open spec fn u32_le_bytes(v: u32) -> Seq<u8> {
    seq![v as u8, (v >> 8) as u8, (v >> 16) as u8, (v >> 24) as u8]
}

/// The value of the first four bytes of `b`, read least significant first.
pub open spec fn u32_from_le(b: Seq<u8>) -> u32
    recommends
        b.len() >= 4,
{
    (b[0] as u32) | ((b[1] as u32) << 8) | ((b[2] as u32) << 16) | ((b[3] as u32) << 24)
}

/// Decoding the encoding of a `u64` gives it back.
pub proof fn lemma_u64_le_value_roundtrip(v: u64)
    ensures
        u64_le_bytes(v).len() == 8,
        u64_from_le(u64_le_bytes(v)) == v,
{
    let s = u64_le_bytes(v);
    assert(s[0] == v as u8 && s[1] == (v >> 8) as u8 && s[2] == (v >> 16) as u8 && s[3] == (v
        >> 24) as u8 && s[4] == (v >> 32) as u8 && s[5] == (v >> 40) as u8 && s[6] == (v >> 48) as u8
        && s[7] == (v >> 56) as u8);
    assert(v == ((v as u8) as u64) | (((v >> 8) as u8 as u64) << 8) | (((v >> 16) as u8 as u64)
        << 16) | (((v >> 24) as u8 as u64) << 24) | (((v >> 32) as u8 as u64) << 32) | (((v >> 40)
        as u8 as u64) << 40) | (((v >> 48) as u8 as u64) << 48) | (((v >> 56) as u8 as u64) << 56))
        by (bit_vector);
}

/// Encoding the value of eight bytes gives the same eight bytes back.
pub proof fn lemma_u64_le_bytes_roundtrip(b: Seq<u8>)
    requires
        b.len() >= 8,
    ensures
        u64_le_bytes(u64_from_le(b)) == b.subrange(0, 8),
{
    let (b0, b1, b2, b3, b4, b5, b6, b7) = (b[0], b[1], b[2], b[3], b[4], b[5], b[6], b[7]);
    let x = u64_from_le(b);
    assert(x == (b0 as u64) | ((b1 as u64) << 8) | ((b2 as u64) << 16) | ((b3 as u64) << 24) | ((
    b4 as u64) << 32) | ((b5 as u64) << 40) | ((b6 as u64) << 48) | ((b7 as u64) << 56));
    assert(x == (b0 as u64) | ((b1 as u64) << 8) | ((b2 as u64) << 16) | ((b3 as u64) << 24) | ((
    b4 as u64) << 32) | ((b5 as u64) << 40) | ((b6 as u64) << 48) | ((b7 as u64) << 56) ==> x as u8
        == b0 && (x >> 8) as u8 == b1 && (x >> 16) as u8 == b2 && (x >> 24) as u8 == b3 && (x >> 32)
        as u8 == b4 && (x >> 40) as u8 == b5 && (x >> 48) as u8 == b6 && (x >> 56) as u8 == b7)
        by (bit_vector);
    assert(u64_le_bytes(x) =~= b.subrange(0, 8));
}

/// Decoding the encoding of a `u32` gives it back.
pub proof fn lemma_u32_le_value_roundtrip(v: u32)
    ensures
        u32_le_bytes(v).len() == 4,
        u32_from_le(u32_le_bytes(v)) == v,
{
    let s = u32_le_bytes(v);
    assert(s[0] == v as u8 && s[1] == (v >> 8) as u8 && s[2] == (v >> 16) as u8 && s[3] == (v
        >> 24) as u8);
    assert(v == ((v as u8) as u32) | (((v >> 8) as u8 as u32) << 8) | (((v >> 16) as u8 as u32)
        << 16) | (((v >> 24) as u8 as u32) << 24)) by (bit_vector);
}

/// Encoding the value of four bytes gives the same four bytes back.
pub proof fn lemma_u32_le_bytes_roundtrip(b: Seq<u8>)
    requires
        b.len() >= 4,
    ensures
        u32_le_bytes(u32_from_le(b)) == b.subrange(0, 4),
{
    let (b0, b1, b2, b3) = (b[0], b[1], b[2], b[3]);
    let x = u32_from_le(b);
    assert(x == (b0 as u32) | ((b1 as u32) << 8) | ((b2 as u32) << 16) | ((b3 as u32) << 24));
    assert(x == (b0 as u32) | ((b1 as u32) << 8) | ((b2 as u32) << 16) | ((b3 as u32) << 24) ==> x
        as u8 == b0 && (x >> 8) as u8 == b1 && (x >> 16) as u8 == b2 && (x >> 24) as u8 == b3)
        by (bit_vector);
    assert(u32_le_bytes(x) =~= b.subrange(0, 4));
}

/// Calls `bincode::serialize` on a `u64`. bincode's free functions use fixed-width
/// little-endian integers and no size limit, and write into a `Vec`, so the call
/// always succeeds and gives the eight little-endian bytes of `v`.
#[verifier::external_body]
pub(crate) fn bincode_serialize_u64(v: u64) -> (res: Option<Vec<u8>>)
    ensures
        res is Some,
        res matches Some(b) ==> b@ == u64_le_bytes(v),
{
    bincode::serialize(&v).ok()
}

/// Calls `bincode::serialize` on a `u32`: always succeeds and gives the four
/// little-endian bytes of `v` (fixed-width little-endian integers, no size limit).
#[verifier::external_body]
pub(crate) fn bincode_serialize_u32(v: u32) -> (res: Option<Vec<u8>>)
    ensures
        res is Some,
        res matches Some(b) ==> b@ == u32_le_bytes(v),
{
    bincode::serialize(&v).ok()
}

/// Calls `bincode::deserialize::<u64>`: it reads the first eight bytes as a
/// little-endian integer, fails on fewer than eight bytes, and ignores trailing bytes.
#[verifier::external_body]
pub(crate) fn bincode_deserialize_u64(bytes: &[u8]) -> (res: Option<u64>)
    ensures
        res is Some <==> bytes@.len() >= 8,
        res matches Some(v) ==> v == u64_from_le(bytes@),
{
    bincode::deserialize::<u64>(bytes).ok()
}

/// Calls `bincode::deserialize::<u32>`: it reads the first four bytes as a
/// little-endian integer, fails on fewer than four bytes, and ignores trailing bytes.
#[verifier::external_body]
pub(crate) fn bincode_deserialize_u32(bytes: &[u8]) -> (res: Option<u32>)
    ensures
        res is Some <==> bytes@.len() >= 4,
        res matches Some(v) ==> v == u32_from_le(bytes@),
{
    bincode::deserialize::<u32>(bytes).ok()
}

} // verus!
