//! Framing of protocol messages: a four-byte big-endian length, then the
//! encoded message. Turning a message into bytes and back is done where the
//! frames are read and written; this module frames and checks the bytes.

use vstd::prelude::*;

verus! {

/// The largest encoded message that is framed or accepted (100 MiB).
pub const MAX_MESSAGE_SIZE: usize = 104857600;

/// `bincode::ErrorKind`, carried as it is.
#[verifier::external_type_specification]
#[verifier::external_body]
pub struct ExBincodeErrorKind(bincode::ErrorKind);

/// Why framing or reading a message failed.
#[derive(Debug)]
pub enum CodecError {
    /// The encoded message is larger than [`MAX_MESSAGE_SIZE`].
    MessageTooLarge(usize),
    /// The message could not be turned into bytes or back.
    Serialization(Box<bincode::ErrorKind>),
    /// Reading or writing the bytes failed.
    Io(std::io::Error),
    /// The bytes end before the frame does.
    Incomplete,
}

impl From<std::io::Error> for CodecError {
    fn from(e: std::io::Error) -> (r: Self) {
        CodecError::Io(e)
    }
}

impl vstd::std_specs::convert::FromSpecImpl<std::io::Error> for CodecError {
    open spec fn obeys_from_spec() -> bool {
        true
    }

    open spec fn from_spec(e: std::io::Error) -> Self {
        CodecError::Io(e)
    }
}

impl From<Box<bincode::ErrorKind>> for CodecError {
    fn from(e: Box<bincode::ErrorKind>) -> (r: Self) {
        CodecError::Serialization(e)
    }
}

impl vstd::std_specs::convert::FromSpecImpl<Box<bincode::ErrorKind>> for CodecError {
    open spec fn obeys_from_spec() -> bool {
        true
    }

    open spec fn from_spec(e: Box<bincode::ErrorKind>) -> Self {
        CodecError::Serialization(e)
    }
}

/// The four big-endian bytes of `n`.
pub open spec fn be_bytes(n: u32) -> Seq<u8> {
    seq![(n >> 24u32) as u8, (n >> 16u32) as u8, (n >> 8u32) as u8, n as u8]
}

/// The number that four big-endian bytes stand for.
pub open spec fn be_value(b0: u8, b1: u8, b2: u8, b3: u8) -> u32 {
    ((b0 as u32) << 24u32) | ((b1 as u32) << 16u32) | ((b2 as u32) << 8u32) | (b3 as u32)
}

/// The length announced by the first four bytes of `data`.
pub open spec fn announced_length(data: Seq<u8>) -> u32 {
    be_value(data[0], data[1], data[2], data[3])
}

/// The frame of `payload`: its length, then the payload.
pub open spec fn frame(payload: Seq<u8>) -> Seq<u8> {
    be_bytes(payload.len() as u32) + payload
}

/// What [`encode`] gives for `payload`.
pub open spec fn spec_encode(payload: Seq<u8>) -> Result<Seq<u8>, CodecError> {
    if payload.len() > MAX_MESSAGE_SIZE {
        Err(CodecError::MessageTooLarge(payload.len() as usize))
    } else {
        Ok(frame(payload))
    }
}

/// What [`decode`] gives for `data`: the payload of the first frame, which
/// must be complete; bytes after it are not looked at.
pub open spec fn spec_decode(data: Seq<u8>) -> Result<Seq<u8>, CodecError> {
    if data.len() < 4 {
        Err(CodecError::Incomplete)
    } else if data.len() - 4 < announced_length(data) {
        Err(CodecError::Incomplete)
    } else {
        Ok(data.subrange(4, 4 + announced_length(data)))
    }
}

/// What [`incoming_length`] gives for a frame header.
pub open spec fn spec_incoming_length(header: Seq<u8>) -> Result<usize, CodecError> {
    if announced_length(header) > MAX_MESSAGE_SIZE {
        Err(CodecError::MessageTooLarge(announced_length(header) as usize))
    } else {
        Ok(announced_length(header) as usize)
    }
}

proof fn lemma_be_roundtrip(n: u32)
    ensures
        be_value((n >> 24u32) as u8, (n >> 16u32) as u8, (n >> 8u32) as u8, n as u8) == n,
{
    assert(((((n >> 24u32) as u8) as u32) << 24u32) | ((((n >> 16u32) as u8) as u32) << 16u32)
        | ((((n >> 8u32) as u8) as u32) << 8u32) | ((n as u8) as u32) == n) by (bit_vector);
}

/// The number that four big-endian bytes stand for.
fn be_u32(b0: u8, b1: u8, b2: u8, b3: u8) -> (n: u32)
    ensures
        n == be_value(b0, b1, b2, b3),
{
    ((b0 as u32) << 24u32) | ((b1 as u32) << 16u32) | ((b2 as u32) << 8u32) | (b3 as u32)
}

/// Frames an encoded message: its length as four big-endian bytes, then the
/// message. A message larger than [`MAX_MESSAGE_SIZE`] is refused.
pub fn encode(payload: &[u8]) -> (r: Result<Vec<u8>, CodecError>)
    ensures
        r matches Ok(v) ==> spec_encode(payload@) == Ok::<Seq<u8>, CodecError>(v@),
        r matches Err(e) ==> spec_encode(payload@) == Err::<Seq<u8>, CodecError>(e),
{
    let len = payload.len();
    if len > MAX_MESSAGE_SIZE {
        return Err(CodecError::MessageTooLarge(len));
    }
    let n = len as u32;
    let mut buffer: Vec<u8> = Vec::with_capacity(4 + len);
    buffer.push((n >> 24u32) as u8);
    buffer.push((n >> 16u32) as u8);
    buffer.push((n >> 8u32) as u8);
    buffer.push(n as u8);
    buffer.extend_from_slice(payload);
    proof {
        assert(buffer@ =~= frame(payload@));
    }
    Ok(buffer)
}

/// Reads the first frame of `data`: the payload it announces, or
/// `Incomplete` where `data` ends first.
pub fn decode(data: &[u8]) -> (r: Result<Vec<u8>, CodecError>)
    ensures
        r matches Ok(v) ==> spec_decode(data@) == Ok::<Seq<u8>, CodecError>(v@),
        r matches Err(e) ==> spec_decode(data@) == Err::<Seq<u8>, CodecError>(e),
{
    if data.len() < 4 {
        return Err(CodecError::Incomplete);
    }
    let length = be_u32(data[0], data[1], data[2], data[3]) as usize;
    if data.len() - 4 < length {
        return Err(CodecError::Incomplete);
    }
    let payload = vstd::slice::slice_subrange(data, 4, 4 + length);
    let mut out: Vec<u8> = Vec::new();
    out.extend_from_slice(payload);
    proof {
        assert(out@ =~= data@.subrange(4, 4 + announced_length(data@)));
    }
    Ok(out)
}

/// Checks the header of an incoming frame: the announced length, refused
/// above [`MAX_MESSAGE_SIZE`].
pub fn incoming_length(header: [u8; 4]) -> (r: Result<usize, CodecError>)
    ensures
        r matches Ok(n) ==> spec_incoming_length(header@) == Ok::<usize, CodecError>(n),
        r matches Err(e) ==> spec_incoming_length(header@) == Err::<usize, CodecError>(e),
{
    let length = be_u32(header[0], header[1], header[2], header[3]) as usize;
    if length > MAX_MESSAGE_SIZE {
        return Err(CodecError::MessageTooLarge(length));
    }
    Ok(length)
}

/// Reading back a framed message gives the message, whatever bytes follow
/// the frame.
pub proof fn lemma_decode_encode(payload: Seq<u8>, rest: Seq<u8>)
    requires
        payload.len() <= MAX_MESSAGE_SIZE,
    ensures
        spec_encode(payload) is Ok,
        spec_decode(spec_encode(payload)->Ok_0 + rest) == Ok::<Seq<u8>, CodecError>(payload),
{
    let n = payload.len() as u32;
    lemma_be_roundtrip(n);
    let data = frame(payload) + rest;
    assert(data[0] == (n >> 24u32) as u8);
    assert(data[1] == (n >> 16u32) as u8);
    assert(data[2] == (n >> 8u32) as u8);
    assert(data[3] == n as u8);
    assert(announced_length(data) == n);
    assert(data.subrange(4, 4 + n) =~= payload);
}

/// The header of a framed message passes the check of incoming frames, with
/// the message's length.
pub proof fn lemma_incoming_accepts_frame(payload: Seq<u8>)
    requires
        payload.len() <= MAX_MESSAGE_SIZE,
    ensures
        spec_incoming_length(frame(payload).take(4)) == Ok::<usize, CodecError>(
            payload.len() as usize,
        ),
{
    let n = payload.len() as u32;
    lemma_be_roundtrip(n);
    let h = frame(payload).take(4);
    assert(h[0] == (n >> 24u32) as u8);
    assert(h[1] == (n >> 16u32) as u8);
    assert(h[2] == (n >> 8u32) as u8);
    assert(h[3] == n as u8);
}

/// A frame that reads back as a payload no larger than the limit is that
/// payload framed: re-framing the payload gives the frame's bytes again.
pub proof fn lemma_encode_decode(data: Seq<u8>)
    requires
        spec_decode(data) is Ok,
        spec_decode(data)->Ok_0.len() <= MAX_MESSAGE_SIZE,
    ensures
        spec_encode(spec_decode(data)->Ok_0) == Ok::<Seq<u8>, CodecError>(
            data.take(4 + announced_length(data)),
        ),
{
    let b0 = data[0];
    let b1 = data[1];
    let b2 = data[2];
    let b3 = data[3];
    let n = announced_length(data);
    assert(((be_value(b0, b1, b2, b3) >> 24u32) as u8) == b0 && ((be_value(b0, b1, b2, b3)
        >> 16u32) as u8) == b1 && ((be_value(b0, b1, b2, b3) >> 8u32) as u8) == b2
        && (be_value(b0, b1, b2, b3) as u8) == b3) by (bit_vector);
    let p = data.subrange(4, 4 + n);
    assert(p.len() == n);
    assert(frame(p) =~= data.take(4 + n));
}

} // verus!
