//! The frame: one file's name and contents as they travel over the stream.
//!
//! ```text
//! [u32 name length][u32 payload length][name, UTF-8][payload]
//! ```
//!
//! Both lengths are big-endian. Nothing follows the payload, and there is no
//! checksum.

use crate::text::string_from_utf8;
use crate::wire::{be32, be32_value, get_be32, lemma_be32_value_of_be32, put_be32};
use vstd::prelude::*;
use vstd::slice::*;
use vstd::string::*;
use vstd::utf8::*;

verus! {

/// The number of bytes that the two length fields take.
pub const HEADER_LENGTH: usize = 8;

/// One file on its way from sender to receiver.
#[derive(Clone, Debug, PartialEq, Eq)]
pub struct TransferMessage {
    pub name: String,
    pub payload: Vec<u8>,
}

/// The four fields of a frame, in the order in which they travel.
#[derive(Clone, Copy, Debug, PartialEq, Eq, Structural)]
pub enum FrameField {
    NameLength,
    PayloadLength,
    Name,
    Payload,
}

/// Why a byte stream is not a frame.
#[derive(Clone, Copy, Debug, PartialEq, Eq, Structural)]
pub enum DecodeError {
    /// The stream ended inside this field.
    Truncated(FrameField),
    /// The name is not UTF-8.
    InvalidName,
}

/// A length as its field carries it: the low 32 bits.
pub open spec fn wire_length(n: nat) -> u32 {
    (n % 0x1_0000_0000) as u32
}

/// The frame that carries `name` and `payload`.
pub open spec fn frame_bytes(name: Seq<char>, payload: Seq<u8>) -> Seq<u8> {
    be32(wire_length(encode_utf8(name).len())) + be32(wire_length(payload.len())) + encode_utf8(
        name,
    ) + payload
}

/// The name length that a stream of at least four bytes announces.
pub open spec fn announced_name_length(stream: Seq<u8>) -> int {
    be32_value(stream.subrange(0, 4)) as int
}

/// The payload length that a stream of at least eight bytes announces.
pub open spec fn announced_payload_length(stream: Seq<u8>) -> int {
    be32_value(stream.subrange(4, 8)) as int
}

/// What a receiver makes of everything a stream delivers before it closes.
///
/// The fields are taken in order and each must be complete; the name is
/// checked before the payload is looked at. Bytes after the payload are not
/// part of the frame and are left alone.
pub open spec fn decoded(stream: Seq<u8>) -> Result<(Seq<char>, Seq<u8>), DecodeError> {
    if stream.len() < 4 {
        Err(DecodeError::Truncated(FrameField::NameLength))
    } else if stream.len() < 8 {
        Err(DecodeError::Truncated(FrameField::PayloadLength))
    } else {
        let n = announced_name_length(stream);
        let p = announced_payload_length(stream);
        if stream.len() < 8 + n {
            Err(DecodeError::Truncated(FrameField::Name))
        } else if !valid_utf8(stream.subrange(8, 8 + n)) {
            Err(DecodeError::InvalidName)
        } else if stream.len() < 8 + n + p {
            Err(DecodeError::Truncated(FrameField::Payload))
        } else {
            Ok((decode_utf8(stream.subrange(8, 8 + n)), stream.subrange(8 + n, 8 + n + p)))
        }
    }
}

/// The largest length that a length field can carry.
pub open spec fn fits_length_field(n: nat) -> bool {
    n < 0x1_0000_0000
}

/// A frame is its two length fields, then the name, then the payload.
pub proof fn lemma_frame_layout(name: Seq<char>, payload: Seq<u8>)
    ensures
        frame_bytes(name, payload).len() == 8 + encode_utf8(name).len() + payload.len(),
        frame_bytes(name, payload).subrange(0, 4) == be32(wire_length(encode_utf8(name).len())),
        frame_bytes(name, payload).subrange(4, 8) == be32(wire_length(payload.len())),
        frame_bytes(name, payload).subrange(8, 8 + encode_utf8(name).len() as int)
            == encode_utf8(name),
        frame_bytes(name, payload).subrange(
            8 + encode_utf8(name).len() as int,
            8 + encode_utf8(name).len() as int + payload.len() as int,
        ) == payload,
{
    let frame = frame_bytes(name, payload);
    let n = encode_utf8(name).len() as int;
    assert(frame.subrange(0, 4) =~= be32(wire_length(encode_utf8(name).len())));
    assert(frame.subrange(4, 8) =~= be32(wire_length(payload.len())));
    assert(frame.subrange(8, 8 + n) =~= encode_utf8(name));
    assert(frame.subrange(8 + n, 8 + n + payload.len()) =~= payload);
}

/// Decoding a frame gives back the name and the payload that went into it,
/// whatever follows the frame on the stream. The two lengths must fit their
/// fields: a longer name or payload travels with a length that has lost its
/// high bits.
pub proof fn lemma_decode_of_encode(name: Seq<char>, payload: Seq<u8>, rest: Seq<u8>)
    requires
        fits_length_field(encode_utf8(name).len()),
        fits_length_field(payload.len()),
    ensures
        decoded(frame_bytes(name, payload) + rest) == Ok::<(Seq<char>, Seq<u8>), DecodeError>(
            (name, payload),
        ),
{
    let frame = frame_bytes(name, payload);
    let stream = frame + rest;
    let n = encode_utf8(name).len() as int;
    let p = payload.len() as int;
    lemma_frame_layout(name, payload);
    assert(stream.subrange(0, 4) =~= frame.subrange(0, 4));
    assert(stream.subrange(4, 8) =~= frame.subrange(4, 8));
    assert(stream.subrange(8, 8 + n) =~= frame.subrange(8, 8 + n));
    assert(stream.subrange(8 + n, 8 + n + p) =~= frame.subrange(8 + n, 8 + n + p));
    lemma_be32_value_of_be32(wire_length(n as nat));
    lemma_be32_value_of_be32(wire_length(p as nat));
    assert(announced_name_length(stream) == n);
    assert(announced_payload_length(stream) == p);
    encode_utf8_valid_utf8(name);
    encode_utf8_decode_utf8(name);
}

/// Encoding and then decoding gives back the same name and the same payload.
pub proof fn lemma_round_trip(name: Seq<char>, payload: Seq<u8>)
    requires
        fits_length_field(encode_utf8(name).len()),
        fits_length_field(payload.len()),
    ensures
        decoded(frame_bytes(name, payload)) == Ok::<(Seq<char>, Seq<u8>), DecodeError>(
            (name, payload),
        ),
{
    lemma_decode_of_encode(name, payload, Seq::empty());
    assert(frame_bytes(name, payload) + Seq::<u8>::empty() =~= frame_bytes(name, payload));
}

/// A stream that closes before the two length fields and the bytes they
/// announce have arrived does not decode.
pub proof fn lemma_short_stream_fails(stream: Seq<u8>)
    requires
        stream.len() < 8 || stream.len() < 8 + announced_name_length(stream)
            + announced_payload_length(stream),
    ensures
        decoded(stream) is Err,
{
}

/// Every proper prefix of a frame fails to decode, and fails as truncated:
/// what did arrive before the cut is never held against the sender.
pub proof fn lemma_cut_frame_is_truncated(name: Seq<char>, payload: Seq<u8>, cut: int)
    requires
        fits_length_field(encode_utf8(name).len()),
        fits_length_field(payload.len()),
        0 <= cut < frame_bytes(name, payload).len(),
    ensures
        decoded(frame_bytes(name, payload).subrange(0, cut)) matches Err(
            DecodeError::Truncated(_),
        ),
{
    let frame = frame_bytes(name, payload);
    let stream = frame.subrange(0, cut);
    let n = encode_utf8(name).len() as int;
    let p = payload.len() as int;
    lemma_frame_layout(name, payload);
    lemma_be32_value_of_be32(wire_length(n as nat));
    lemma_be32_value_of_be32(wire_length(p as nat));
    if cut >= 8 {
        assert(stream.subrange(0, 4) =~= frame.subrange(0, 4));
        assert(stream.subrange(4, 8) =~= frame.subrange(4, 8));
        assert(announced_name_length(stream) == n);
        assert(announced_payload_length(stream) == p);
        if cut >= 8 + n {
            assert(stream.subrange(8, 8 + n) =~= frame.subrange(8, 8 + n));
            encode_utf8_valid_utf8(name);
        }
    }
}

/// The length of a file or a name as its field carries it.
pub fn length_field(n: usize) -> (field: u32)
    ensures
        field == wire_length(n as nat),
{
    let wide: u64 = n as u64;
    (wide % 0x1_0000_0000) as u32
}

/// Appends a copy of `bytes` to `out`.
pub fn put_bytes(out: &mut Vec<u8>, bytes: &[u8])
    ensures
        final(out)@ == old(out)@ + bytes@,
{
    let mut i: usize = 0;
    while i < bytes.len()
        invariant
            i <= bytes@.len(),
            out@ == old(out)@ + bytes@.subrange(0, i as int),
        decreases bytes@.len() - i,
    {
        out.push(bytes[i]);
        i = i + 1;
        assert(out@ =~= old(out)@ + bytes@.subrange(0, i as int));
    }
    assert(bytes@.subrange(0, i as int) =~= bytes@);
}

/// Builds the frame for a file called `name` that holds `payload`.
pub fn encode_frame(name: &str, payload: &[u8]) -> (frame: Vec<u8>)
    ensures
        frame@ == frame_bytes(name@, payload@),
{
    let name_bytes = name.as_bytes();
    let mut frame: Vec<u8> = Vec::new();
    put_be32(&mut frame, length_field(name_bytes.len()));
    put_be32(&mut frame, length_field(payload.len()));
    put_bytes(&mut frame, name_bytes);
    put_bytes(&mut frame, payload);
    assert(frame@ =~= frame_bytes(name@, payload@));
    frame
}

/// Takes a frame out of everything that `stream` delivered.
pub fn decode_frame(stream: &[u8]) -> (result: Result<TransferMessage, DecodeError>)
    ensures
        match result {
            Ok(message) => decoded(stream@) == Ok::<(Seq<char>, Seq<u8>), DecodeError>(
                (message.name@, message.payload@),
            ),
            Err(error) => decoded(stream@) == Err::<(Seq<char>, Seq<u8>), DecodeError>(error),
        },
{
    let available: u64 = stream.len() as u64;
    if available < 4 {
        return Err(DecodeError::Truncated(FrameField::NameLength));
    }
    if available < HEADER_LENGTH as u64 {
        return Err(DecodeError::Truncated(FrameField::PayloadLength));
    }
    let n: u32 = get_be32(stream, 0);
    let p: u32 = get_be32(stream, 4);
    let name_end: u64 = HEADER_LENGTH as u64 + n as u64;
    if available < name_end {
        return Err(DecodeError::Truncated(FrameField::Name));
    }
    let name_bytes = slice_to_vec(slice_subrange(stream, HEADER_LENGTH, name_end as usize));
    let name = match string_from_utf8(name_bytes) {
        Some(name) => name,
        None => {
            return Err(DecodeError::InvalidName);
        },
    };
    let payload_end: u64 = name_end + p as u64;
    if available < payload_end {
        return Err(DecodeError::Truncated(FrameField::Payload));
    }
    let payload = slice_to_vec(slice_subrange(stream, name_end as usize, payload_end as usize));
    Ok(TransferMessage { name, payload })
}

} // verus!
