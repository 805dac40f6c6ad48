//! Block checksums: the BLAKE3 digest of a block, written as lowercase hex.

use vstd::prelude::*;

verus! {

/// The BLAKE3 digest of `data`.
pub uninterp spec fn blake3_digest(data: Seq<u8>) -> Seq<u8>;

/// Calls `blake3::hash(data)` and returns the raw bytes of the hash, which
/// are always `blake3::OUT_LEN` (32) bytes long.
#[verifier::external_body]
fn blake3_hash(data: &[u8]) -> (res: Vec<u8>)
    ensures
        res@ == blake3_digest(data@),
        res@.len() == 32,
{
    blake3::hash(data).as_bytes().to_vec()
}

/// The lowercase hex digit of a nibble.
pub open spec fn hex_digit(n: u8) -> char
    recommends
        n < 16,
{
    if n < 10 {
        (('0' as u8) + n) as char
    } else {
        (('a' as u8) + n - 10) as char
    }
}

/// The lowercase hex form of `bytes`: two digits per byte, high nibble first.
pub open spec fn hex_lower(bytes: Seq<u8>) -> Seq<char>
    decreases bytes.len(),
{
    if bytes.len() == 0 {
        Seq::empty()
    } else {
        hex_lower(bytes.drop_last()) + seq![hex_digit(bytes.last() >> 4), hex_digit(bytes.last() & 0xf)]
    }
}

/// Whether `c` is one of `0`-`9`, `a`-`f`.
pub open spec fn is_lower_hex_char(c: char) -> bool {
    ('0' <= c && c <= '9') || ('a' <= c && c <= 'f')
}

/// The checksum of a block as the protocol carries it.
pub open spec fn spec_block_checksum(block: Seq<u8>) -> Seq<char> {
    hex_lower(blake3_digest(block))
}

/// The hex digit of a nibble, as a one-character string.
fn hex_digit_str(n: u8) -> (s: &'static str)
    requires
        n < 16,
    ensures
        s@ == seq![hex_digit(n)],
{
    match n {
        0 => { proof { reveal_strlit("0"); } "0" },
        1 => { proof { reveal_strlit("1"); } "1" },
        2 => { proof { reveal_strlit("2"); } "2" },
        3 => { proof { reveal_strlit("3"); } "3" },
        4 => { proof { reveal_strlit("4"); } "4" },
        5 => { proof { reveal_strlit("5"); } "5" },
        6 => { proof { reveal_strlit("6"); } "6" },
        7 => { proof { reveal_strlit("7"); } "7" },
        8 => { proof { reveal_strlit("8"); } "8" },
        9 => { proof { reveal_strlit("9"); } "9" },
        10 => { proof { reveal_strlit("a"); } "a" },
        11 => { proof { reveal_strlit("b"); } "b" },
        12 => { proof { reveal_strlit("c"); } "c" },
        13 => { proof { reveal_strlit("d"); } "d" },
        14 => { proof { reveal_strlit("e"); } "e" },
        _ => { proof { reveal_strlit("f"); } "f" },
    }
}

/// Writes `bytes` as lowercase hex, two digits per byte.
pub fn to_hex_lower(bytes: &[u8]) -> (res: String)
    ensures
        res@ == hex_lower(bytes@),
{
    let mut res = String::new();
    let n = bytes.len();
    for i in 0..n
        invariant
            n == bytes@.len(),
            res@ == hex_lower(bytes@.take(i as int)),
    {
        let b = bytes[i];
        assert(b >> 4 < 16 && b & 0xf < 16) by (bit_vector);
        res.append(hex_digit_str(b >> 4));
        res.append(hex_digit_str(b & 0xf));
        assert(bytes@.take(i + 1).drop_last() =~= bytes@.take(i as int));
    }
    assert(bytes@.take(n as int) =~= bytes@);
    res
}

/// The checksum of a block: the BLAKE3 digest of its bytes in lowercase hex.
/// It is always 64 lowercase hex characters.
pub fn block_checksum(block: &[u8]) -> (res: String)
    ensures
        res@ == spec_block_checksum(block@),
        res@.len() == 64,
        forall|i: int| 0 <= i < 64 ==> is_lower_hex_char(#[trigger] res@[i]),
{
    let digest = blake3_hash(block);
    proof {
        lemma_hex_lower_shape(digest@);
    }
    to_hex_lower(digest.as_slice())
}

/// The hex form has two characters per byte, each a lowercase hex digit.
pub proof fn lemma_hex_lower_shape(bytes: Seq<u8>)
    ensures
        hex_lower(bytes).len() == 2 * bytes.len(),
        forall|i: int| 0 <= i < hex_lower(bytes).len() ==> is_lower_hex_char(#[trigger] hex_lower(bytes)[i]),
    decreases bytes.len(),
{
    if bytes.len() > 0 {
        let b = bytes.last();
        lemma_hex_lower_shape(bytes.drop_last());
        assert(b >> 4 < 16 && b & 0xf < 16) by (bit_vector);
        lemma_hex_digit(b >> 4);
        lemma_hex_digit(b & 0xf);
    }
}

/// A nibble's digit is a lowercase hex character.
pub proof fn lemma_hex_digit(n: u8)
    requires
        n < 16,
    ensures
        is_lower_hex_char(hex_digit(n)),
{
}


/// The number a hex digit stands for.
pub open spec fn hex_value(c: char) -> int {
    if '0' <= c && c <= '9' {
        (c as int) - ('0' as int)
    } else {
        (c as int) - ('a' as int) + 10
    }
}

/// A nibble's digit reads back as the nibble.
pub proof fn lemma_hex_digit_value(n: u8)
    requires
        n < 16,
    ensures
        hex_value(hex_digit(n)) == n,
{
}

/// The hex form has two digits per byte, and the two digits at `2 * i` and
/// `2 * i + 1` read back as byte `i`: high digit times 16 plus low digit.
pub proof fn lemma_hex_lower_decodes(bytes: Seq<u8>, i: int)
    requires
        0 <= i < bytes.len(),
    ensures
        hex_lower(bytes).len() == 2 * bytes.len(),
        is_lower_hex_char(hex_lower(bytes)[2 * i]),
        is_lower_hex_char(hex_lower(bytes)[2 * i + 1]),
        hex_value(hex_lower(bytes)[2 * i]) * 16 + hex_value(hex_lower(bytes)[2 * i + 1]) == bytes[i] as int,
    decreases bytes.len(),
{
    lemma_hex_lower_shape(bytes);
    let init = bytes.drop_last();
    lemma_hex_lower_shape(init);
    if i < bytes.len() - 1 {
        lemma_hex_lower_decodes(init, i);
        assert(hex_lower(bytes)[2 * i] == hex_lower(init)[2 * i]);
        assert(hex_lower(bytes)[2 * i + 1] == hex_lower(init)[2 * i + 1]);
    } else {
        let b = bytes.last();
        assert(b >> 4 < 16 && b & 0xf < 16) by (bit_vector);
        assert((b >> 4) * 16 + (b & 0xf) == b) by (bit_vector);
        lemma_hex_digit_value(b >> 4);
        lemma_hex_digit_value(b & 0xf);
        assert(hex_lower(bytes)[2 * i] == hex_digit(b >> 4));
        assert(hex_lower(bytes)[2 * i + 1] == hex_digit(b & 0xf));
    }
}

/// Different byte strings have different hex forms.
pub proof fn lemma_hex_lower_injective(a: Seq<u8>, b: Seq<u8>)
    requires
        hex_lower(a) == hex_lower(b),
    ensures
        a == b,
{
    lemma_hex_lower_shape(a);
    lemma_hex_lower_shape(b);
    assert forall|i: int| 0 <= i < a.len() implies a[i] == b[i] by {
        lemma_hex_lower_decodes(a, i);
        lemma_hex_lower_decodes(b, i);
    }
    assert(a =~= b);
}

} // verus!
