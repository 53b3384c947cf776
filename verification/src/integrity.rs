//! Checksums of chunk payloads: BLAKE3 digests in lower-case hexadecimal.

use vstd::prelude::*;
use crate::text::push_char;
use crate::text::str_equal;

verus! {

/// The BLAKE3 digest (32 bytes) of a byte sequence.
pub uninterp spec fn blake3_digest(data: Seq<u8>) -> Seq<u8>;

/// `blake3::hash`: the BLAKE3 digest of `data`, as its 32 raw bytes. The
/// digest is named, not stated: it is a function of the input alone.
#[verifier::external_body]
fn blake3_hash(data: &[u8]) -> (digest: [u8; 32])
    ensures
        digest@ == blake3_digest(data@),
{
    *blake3::hash(data).as_bytes()
}

/// The lower-case hexadecimal character of a nibble (`0 <= n < 16`).
pub open spec fn hex_char(n: int) -> char {
    if n < 10 {
        (48 + n) as char
    } else {
        (87 + n) as char
    }
}

/// Lower-case hexadecimal text of a byte sequence, two characters a byte,
/// high nibble first.
pub open spec fn hex_lower(bytes: Seq<u8>) -> Seq<char>
    decreases bytes.len(),
{
    if bytes.len() == 0 {
        seq![]
    } else {
        hex_lower(bytes.drop_last()) + seq![
            hex_char(bytes.last() as int / 16),
            hex_char(bytes.last() as int % 16),
        ]
    }
}

/// The checksum text of a payload.
pub open spec fn checksum_text(data: Seq<u8>) -> Seq<char> {
    hex_lower(blake3_digest(data))
}

/// The character of a nibble.
fn nibble_char(n: u8) -> (c: char)
    requires
        n < 16,
    ensures
        c == hex_char(n as int),
{
    if n < 10 {
        (48 + n) as char
    } else {
        (87 + n) as char
    }
}

proof fn lemma_hex_lower_len(bytes: Seq<u8>)
    ensures
        hex_lower(bytes).len() == 2 * bytes.len(),
    decreases bytes.len(),
{
    if bytes.len() > 0 {
        lemma_hex_lower_len(bytes.drop_last());
    }
}

/// Hexadecimal text of a digest.
fn to_hex(digest: &[u8; 32]) -> (s: String)
    ensures
        s@ == hex_lower(digest@),
{
    let mut s = String::new();
    let mut i: usize = 0;
    while i < 32
        invariant
            0 <= i <= 32,
            digest@.len() == 32,
            s@ == hex_lower(digest@.take(i as int)),
        decreases 32 - i,
    {
        let b = digest[i];
        proof {
            assert(digest@.take(i + 1).drop_last() =~= digest@.take(i as int));
            assert(digest@.take(i + 1).last() == b);
        }
        push_char(&mut s, nibble_char(b / 16));
        push_char(&mut s, nibble_char(b % 16));
        proof {
            assert(s@ =~= hex_lower(digest@.take(i + 1)));
        }
        i += 1;
    }
    proof {
        assert(digest@.take(32) =~= digest@);
    }
    s
}

/// The checksum of `data`: its BLAKE3 digest in lower-case hexadecimal.
pub fn calculate_checksum(data: &[u8]) -> (sum: String)
    ensures
        sum@ == checksum_text(data@),
        sum@.len() == 64,
{
    let digest = blake3_hash(data);
    let s = to_hex(&digest);
    proof {
        lemma_hex_lower_len(digest@);
    }
    s
}

/// Whether `data` has the checksum `expected`.
pub fn verify_checksum(data: &[u8], expected: &str) -> (ok: bool)
    ensures
        ok == (checksum_text(data@) == expected@),
{
    let actual = calculate_checksum(data);
    str_equal(actual.as_str(), expected)
}

} // verus!
