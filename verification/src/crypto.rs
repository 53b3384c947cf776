//! End-to-end encryption of chunk payloads with AES-256-GCM.
//!
//! Each transfer has its own key, derived with BLAKE3 from the group code
//! and the transfer's id. The transfer id travels in clear, so the secret
//! is the group code alone: without a group code anyone who sees the
//! transfer can derive the key, and a four-digit code leaves at most ten
//! thousand candidates. The sealing authenticates every chunk, so damaged
//! or forged payloads are refused. Within a transfer each chunk is sealed
//! under a nonce made of its index, so no nonce is used twice with one key
//! for different data.

use aes_gcm::aead::Aead;
use aes_gcm::Aes256Gcm;
use aes_gcm::KeyInit;
use vstd::prelude::*;

verus! {

/// The largest plaintext that AES-GCM seals (2^36 bytes).
pub const AES_GCM_MAX_PLAINTEXT: u64 = 68719476736;

/// The BLAKE3 key derived for `context` from `material`.
pub uninterp spec fn blake3_derived_key(context: Seq<char>, material: Seq<u8>) -> Seq<u8>;

/// What AES-256-GCM seals `plain` into under `key` and `nonce`: the
/// ciphertext followed by the tag.
pub uninterp spec fn aes256gcm_sealed(key: Seq<u8>, nonce: Seq<u8>, plain: Seq<u8>) -> Seq<u8>;

/// What AES-256-GCM opens `sealed` to under `key` and `nonce`, or `None`
/// where it is not authentic.
pub uninterp spec fn aes256gcm_opened(key: Seq<u8>, nonce: Seq<u8>, sealed: Seq<u8>) -> Option<
    Seq<u8>,
>;

/// `blake3::derive_key`: a 32-byte key derived from `material` for the
/// purpose named by `context`. The key is named, not stated.
#[verifier::external_body]
fn blake3_derive_key(context: &str, material: &[u8]) -> (k: [u8; 32])
    ensures
        k@ == blake3_derived_key(context@, material@),
{
    blake3::derive_key(context, material)
}

/// `<Aes256Gcm as Aead>::encrypt` with no associated data. Its source
/// refuses plaintexts longer than `P_MAX` (2^36 bytes) and nothing else;
/// what it returns opens again under the same key and nonce.
#[verifier::external_body]
fn aes256gcm_encrypt(key: &[u8; 32], nonce: &[u8; 12], plain: &[u8]) -> (r: Option<Vec<u8>>)
    ensures
        r is Some <==> plain@.len() <= AES_GCM_MAX_PLAINTEXT,
        r matches Some(c) ==> c@ == aes256gcm_sealed(key@, nonce@, plain@) && aes256gcm_opened(
            key@,
            nonce@,
            c@,
        ) == Some(plain@),
{
    let cipher = Aes256Gcm::new(aes_gcm::Key::<Aes256Gcm>::from_slice(key));
    cipher.encrypt(aes_gcm::Nonce::from_slice(nonce), plain).ok()
}

/// `<Aes256Gcm as Aead>::decrypt` with no associated data: the plaintext
/// where `sealed` is authentic under `key` and `nonce`.
#[verifier::external_body]
fn aes256gcm_decrypt(key: &[u8; 32], nonce: &[u8; 12], sealed: &[u8]) -> (r: Option<Vec<u8>>)
    ensures
        r is Some <==> aes256gcm_opened(key@, nonce@, sealed@) is Some,
        r matches Some(p) ==> aes256gcm_opened(key@, nonce@, sealed@) == Some(p@),
{
    let cipher = Aes256Gcm::new(aes_gcm::Key::<Aes256Gcm>::from_slice(key));
    cipher.decrypt(aes_gcm::Nonce::from_slice(nonce), sealed).ok()
}

/// The sixteen big-endian bytes of `id`.
pub open spec fn u128_be(id: u128) -> Seq<u8> {
    Seq::new(16, |k: int| (id >> ((8 * (15 - k)) as u32)) as u8)
}

/// The key of transfer `transfer_id` for devices whose group code is
/// `group_code`: derived from the code's UTF-8 bytes and the id.
pub open spec fn transfer_key_of(group_code: Seq<char>, transfer_id: u128) -> Seq<u8> {
    blake3_derived_key(
        "closeshare 2024 transfer chunk key"@,
        vstd::utf8::encode_utf8(group_code) + u128_be(transfer_id),
    )
}

/// The nonce of chunk `index`: its eight big-endian bytes, then four zeros.
pub open spec fn chunk_nonce_of(index: u64) -> Seq<u8> {
    seq![
        (index >> 56u64) as u8,
        (index >> 48u64) as u8,
        (index >> 40u64) as u8,
        (index >> 32u64) as u8,
        (index >> 24u64) as u8,
        (index >> 16u64) as u8,
        (index >> 8u64) as u8,
        index as u8,
        0u8,
        0u8,
        0u8,
        0u8,
    ]
}

/// The key of a transfer for devices of the group `group_code`.
pub fn transfer_key(group_code: &str, transfer_id: u128) -> (k: [u8; 32])
    ensures
        k@ == transfer_key_of(group_code@, transfer_id),
{
    let mut material: Vec<u8> = Vec::new();
    let bytes = group_code.as_bytes();
    material.extend_from_slice(bytes);
    assert(material@ =~= bytes@);
    let ghost g = material@;
    let mut k: u32 = 0;
    while k < 16
        invariant
            0 <= k <= 16,
            material@.len() == g.len() + k,
            material@.subrange(0, g.len() as int) == g,
            forall|j: int| 0 <= j < k ==> material@[g.len() + j] == u128_be(transfer_id)[j],
        decreases 16 - k,
    {
        let shift: u32 = 8 * (15 - k);
        material.push((transfer_id >> shift) as u8);
        k += 1;
    }
    proof {
        assert(material@ =~= g + u128_be(transfer_id));
        assert(g == vstd::utf8::encode_utf8(group_code@));
    }
    blake3_derive_key("closeshare 2024 transfer chunk key", material.as_slice())
}

/// The nonce of chunk `index`.
pub fn chunk_nonce(index: u64) -> (n: [u8; 12])
    ensures
        n@ == chunk_nonce_of(index),
{
    let n = [
        (index >> 56u64) as u8,
        (index >> 48u64) as u8,
        (index >> 40u64) as u8,
        (index >> 32u64) as u8,
        (index >> 24u64) as u8,
        (index >> 16u64) as u8,
        (index >> 8u64) as u8,
        index as u8,
        0u8,
        0u8,
        0u8,
        0u8,
    ];
    assert(n@ =~= chunk_nonce_of(index));
    n
}

/// Seals the payload of chunk `index` under `key`; payloads longer than
/// AES-GCM allows are refused.
pub fn seal_chunk(key: &[u8; 32], index: u64, payload: &[u8]) -> (r: Option<Vec<u8>>)
    ensures
        r is Some <==> payload@.len() <= AES_GCM_MAX_PLAINTEXT,
        r matches Some(c) ==> c@ == aes256gcm_sealed(key@, chunk_nonce_of(index), payload@)
            && aes256gcm_opened(key@, chunk_nonce_of(index), c@) == Some(payload@),
{
    let nonce = chunk_nonce(index);
    aes256gcm_encrypt(key, &nonce, payload)
}

/// Opens the sealed payload of chunk `index` under `key`, where it is
/// authentic.
pub fn open_chunk(key: &[u8; 32], index: u64, sealed: &[u8]) -> (r: Option<Vec<u8>>)
    ensures
        r is Some <==> aes256gcm_opened(key@, chunk_nonce_of(index), sealed@) is Some,
        r matches Some(p) ==> aes256gcm_opened(key@, chunk_nonce_of(index), sealed@) == Some(p@),
{
    let nonce = chunk_nonce(index);
    aes256gcm_decrypt(key, &nonce, sealed)
}

} // verus!
