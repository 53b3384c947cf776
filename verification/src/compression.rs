//! Compression of chunk payloads with zstd.

use vstd::prelude::*;

verus! {

/// `std::io::Error`, carried as it is.
#[verifier::external_type_specification]
#[verifier::external_body]
pub struct ExIoError(std::io::Error);

/// The compression level used for chunk payloads.
pub const COMPRESSION_LEVEL: i32 = 1;

/// The zstd frame that compressing `data` at `level` produces.
pub uninterp spec fn zstd_frame(data: Seq<u8>, level: i32) -> Seq<u8>;

/// What decompressing `frame` gives back, or `None` where `frame` is not
/// valid zstd data.
pub uninterp spec fn zstd_decoded(frame: Seq<u8>) -> Option<Seq<u8>>;

/// `zstd::stream::encode_all` over an in-memory slice. Reading a slice and
/// writing a `Vec` cannot fail, and a level in zstd's documented range
/// (1 to 22) is accepted, so it succeeds there (running out of memory
/// aborts). Its output is the frame named by `zstd_frame`, and decoding that
/// frame gives back the input (zstd is lossless).
#[verifier::external_body]
fn zstd_encode_all(data: &[u8], level: i32) -> (r: Result<Vec<u8>, std::io::Error>)
    ensures
        1 <= level <= 22 ==> r is Ok,
        r matches Ok(c) ==> c@ == zstd_frame(data@, level) && zstd_decoded(c@) == Some(data@),
{
    zstd::stream::encode_all(data, level)
}

/// `zstd::stream::decode_all` over an in-memory slice: it succeeds exactly
/// on valid zstd data, with the decoded bytes.
#[verifier::external_body]
fn zstd_decode_all(data: &[u8]) -> (r: Result<Vec<u8>, std::io::Error>)
    ensures
        r is Ok <==> zstd_decoded(data@) is Some,
        r matches Ok(v) ==> zstd_decoded(data@) == Some(v@),
{
    zstd::stream::decode_all(data)
}

/// Compresses a chunk payload at [`COMPRESSION_LEVEL`]; it always succeeds.
pub fn compress(data: &[u8]) -> (r: Result<Vec<u8>, std::io::Error>)
    ensures
        r is Ok,
        r matches Ok(c) ==> c@ == zstd_frame(data@, COMPRESSION_LEVEL) && zstd_decoded(c@) == Some(
            data@,
        ),
{
    zstd_encode_all(data, COMPRESSION_LEVEL)
}

/// Decompresses a chunk payload.
pub fn decompress(data: &[u8]) -> (r: Result<Vec<u8>, std::io::Error>)
    ensures
        r is Ok <==> zstd_decoded(data@) is Some,
        r matches Ok(v) ==> zstd_decoded(data@) == Some(v@),
{
    zstd_decode_all(data)
}

} // verus!
