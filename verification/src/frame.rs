//! Length-prefixed framing: four bytes of big-endian length, then the payload.

use vstd::prelude::*;
use vstd::slice::{slice_subrange, slice_to_vec};

verus! {

/// Number of bytes in the length prefix of a frame.
pub const HEADER_LEN: usize = 4;

/// Largest payload length that the prefix can express.
pub const MAX_PAYLOAD_LEN: u32 = 0xffff_ffff;

/// The four big-endian bytes that stand for `n`.
pub open spec fn length_prefix(n: nat) -> Seq<u8> {
    seq![
        (n / 0x100_0000 % 0x100) as u8,
        (n / 0x1_0000 % 0x100) as u8,
        (n / 0x100 % 0x100) as u8,
        (n % 0x100) as u8,
    ]
}

/// The number that the first four bytes of `header` stand for, read big-endian.
pub open spec fn prefix_value(header: Seq<u8>) -> nat
    recommends
        header.len() >= 4,
{
    (header[0] as nat) * 0x100_0000 + (header[1] as nat) * 0x1_0000 + (header[2] as nat) * 0x100
        + (header[3] as nat)
}

/// The frame that carries `payload`.
pub open spec fn frame_of(payload: Seq<u8>) -> Seq<u8> {
    length_prefix(payload.len()) + payload
}

/// Why a payload could not be framed, or a frame not be read.
#[derive(Clone, Copy, Debug, PartialEq, Eq, Structural)]
pub enum FrameError {
    /// The payload is longer than a four-byte length can say.
    PayloadTooLarge,
    /// The stream ended before the frame was complete.
    IncompleteFrame,
}

/// Reading a prefix back gives the number it was written for.
pub proof fn lemma_prefix_value_of_length_prefix(n: nat)
    requires
        n <= MAX_PAYLOAD_LEN,
    ensures
        length_prefix(n).len() == 4,
        prefix_value(length_prefix(n)) == n,
{
    let n = n as int;
    let high = n / 0x100_0000;
    let low = n % 0x100_0000;
    assert(n == high * 0x100_0000 + low);
    assert(n / 0x1_0000 == high * 0x100 + low / 0x1_0000);
    assert(n / 0x100 == high * 0x1_0000 + low / 0x100);
    assert(low == (low / 0x1_0000) * 0x1_0000 + (low / 0x100 % 0x100) * 0x100 + low % 0x100);
}

/// Writing the number that four bytes stand for gives those bytes again.
pub proof fn lemma_length_prefix_of_prefix_value(header: Seq<u8>)
    requires
        header.len() == 4,
    ensures
        prefix_value(header) <= MAX_PAYLOAD_LEN,
        length_prefix(prefix_value(header)) == header,
{
    let b0 = header[0] as int;
    let b1 = header[1] as int;
    let b2 = header[2] as int;
    let b3 = header[3] as int;
    let n = prefix_value(header) as int;
    assert(n == (b0 * 0x1_0000 + b1 * 0x100 + b2) * 0x100 + b3);
    assert(n / 0x100 == b0 * 0x1_0000 + b1 * 0x100 + b2);
    assert(n == (b0 * 0x100 + b1) * 0x1_0000 + (b2 * 0x100 + b3));
    assert(n / 0x1_0000 == b0 * 0x100 + b1);
    assert(n == b0 * 0x100_0000 + (b1 * 0x1_0000 + b2 * 0x100 + b3));
    assert(n / 0x100_0000 == b0);
    assert(length_prefix(prefix_value(header)) =~= header);
}

/// Frames `payload`: its length in four big-endian bytes, then the payload itself.
pub fn encode(payload: &[u8]) -> (frame: Result<Vec<u8>, FrameError>)
    ensures
        match frame {
            Ok(bytes) => payload@.len() <= MAX_PAYLOAD_LEN && bytes@ == frame_of(payload@),
            Err(e) => payload@.len() > MAX_PAYLOAD_LEN && e == FrameError::PayloadTooLarge,
        },
{
    let len = payload.len();
    if len > MAX_PAYLOAD_LEN as usize {
        return Err(FrameError::PayloadTooLarge);
    }
    let n: u32 = len as u32;
    let mut frame: Vec<u8> = Vec::new();
    frame.push((n / 0x100_0000) as u8);
    frame.push((n / 0x1_0000 % 0x100) as u8);
    frame.push((n / 0x100 % 0x100) as u8);
    frame.push((n % 0x100) as u8);
    frame.extend_from_slice(payload);
    assert(frame@ =~= frame_of(payload@));
    Ok(frame)
}

/// One frame taken from the head of a stream.
#[derive(Debug, PartialEq, Eq)]
pub struct Frame {
    /// The payload that the frame carries.
    pub payload: Vec<u8>,
    /// How many bytes of the stream the frame took: the prefix and the payload.
    pub consumed: usize,
}

/// Whether `stream` begins with a complete frame.
pub open spec fn has_frame(stream: Seq<u8>) -> bool {
    stream.len() >= 4 && stream.len() >= 4 + prefix_value(stream)
}

/// The payload of the frame that `stream` begins with.
pub open spec fn first_payload(stream: Seq<u8>) -> Seq<u8>
    recommends
        has_frame(stream),
{
    stream.subrange(4, 4 + prefix_value(stream) as int)
}

/// The payload length that a length prefix announces.
pub fn payload_len(header: &[u8; 4]) -> (len: u32)
    ensures
        len == prefix_value(header@),
{
    (header[0] as u32) * 0x100_0000 + (header[1] as u32) * 0x1_0000 + (header[2] as u32) * 0x100
        + (header[3] as u32)
}

/// Takes the first frame from `stream`, which holds all the bytes that are
/// still to come: exactly four bytes of length, then exactly that many bytes
/// of payload. A stream that ends before that is an incomplete frame.
pub fn decode(stream: &[u8]) -> (frame: Result<Frame, FrameError>)
    ensures
        match frame {
            Ok(f) => has_frame(stream@) && f.payload@ == first_payload(stream@) && f.consumed == 4
                + prefix_value(stream@),
            Err(e) => !has_frame(stream@) && e == FrameError::IncompleteFrame,
        },
{
    if stream.len() < HEADER_LEN {
        return Err(FrameError::IncompleteFrame);
    }
    let header: [u8; 4] = [stream[0], stream[1], stream[2], stream[3]];
    let len = payload_len(&header);
    if stream.len() - HEADER_LEN < len as usize {
        return Err(FrameError::IncompleteFrame);
    }
    let end = HEADER_LEN + len as usize;
    let payload = slice_to_vec(slice_subrange(stream, HEADER_LEN, end));
    Ok(Frame { payload, consumed: end })
}

/// A frame that was written is read back whole, whatever follows it on the
/// stream: `decode(encode(p) + rest)` gives `p` and leaves `rest`.
pub proof fn lemma_decode_encode(payload: Seq<u8>, rest: Seq<u8>)
    requires
        payload.len() <= MAX_PAYLOAD_LEN,
    ensures
        has_frame(frame_of(payload) + rest),
        first_payload(frame_of(payload) + rest) == payload,
        (frame_of(payload) + rest).skip(4 + (prefix_value(frame_of(payload) + rest) as int)) == rest,
{
    let stream = frame_of(payload) + rest;
    lemma_prefix_value_of_length_prefix(payload.len());
    assert(prefix_value(stream) == prefix_value(length_prefix(payload.len())));
    assert(first_payload(stream) =~= payload);
    assert(stream.skip(4 + payload.len() as int) =~= rest);
}

/// A stream that stops inside a frame holds no frame, wherever it stops:
/// no proper prefix of a frame is a frame.
pub proof fn lemma_truncated_frame_is_incomplete(payload: Seq<u8>, kept: int)
    requires
        payload.len() <= MAX_PAYLOAD_LEN,
        0 <= kept < frame_of(payload).len(),
    ensures
        !has_frame(frame_of(payload).take(kept)),
{
    let cut = frame_of(payload).take(kept);
    lemma_prefix_value_of_length_prefix(payload.len());
    if kept >= 4 {
        assert(prefix_value(cut) == prefix_value(length_prefix(payload.len())));
    }
}

} // verus!
