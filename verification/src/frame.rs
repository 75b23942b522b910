//! The frames in which messages travel between a client and the bridge.
//!
//! A frame is a header of four bytes, which hold the length of the payload
//! in big-endian order, followed by the payload. A payload is at most
//! eight mebibytes long. A sender frames each message; a receiver collects
//! what arrives in a buffer and takes the frames off its front, each as the
//! one unit that was sent.

use vstd::prelude::*;

verus! {

/// The length of a frame's header.
pub const HEADER_LEN: usize = 4;

/// The longest payload that a frame can carry.
pub const MAX_FRAME_LEN: usize = 8_388_608;

/// Why bytes make no frame.
#[derive(Clone, Copy, Debug, PartialEq, Eq)]
pub enum FrameError {
    /// The payload is longer than a frame can carry.
    TooLong,
}

/// The header of a payload of `len` bytes: `len` as four bytes, the most
/// significant first.
pub open spec fn header_of(len: nat) -> Seq<u8> {
    seq![
        (len / 16_777_216) as u8,
        (len / 65_536 % 256) as u8,
        (len / 256 % 256) as u8,
        (len % 256) as u8,
    ]
}

/// The length that the first four bytes of `bytes` hold.
pub open spec fn length_in(bytes: Seq<u8>) -> nat {
    (bytes[0] * 16_777_216 + bytes[1] * 65_536 + bytes[2] * 256 + bytes[3]) as nat
}

/// The frame of `payload`.
pub open spec fn framed(payload: Seq<u8>) -> Seq<u8> {
    header_of(payload.len()) + payload
}

/// What stands at the front of a buffer.
pub enum Unframed {
    /// Less than a whole frame; more bytes have to arrive.
    Incomplete,
    /// A whole frame with this payload, and after it the rest of the buffer.
    Frame { payload: Seq<u8>, rest: Seq<u8> },
    /// A header that announces more than a frame can carry.
    TooLong,
}

/// What stands at the front of `buffer`.
pub open spec fn unframed(buffer: Seq<u8>) -> Unframed {
    if buffer.len() < HEADER_LEN {
        Unframed::Incomplete
    } else if length_in(buffer) > MAX_FRAME_LEN {
        Unframed::TooLong
    } else if buffer.len() < HEADER_LEN + length_in(buffer) {
        Unframed::Incomplete
    } else {
        Unframed::Frame {
            payload: buffer.subrange(HEADER_LEN as int, HEADER_LEN + length_in(buffer)),
            rest: buffer.skip(HEADER_LEN + length_in(buffer)),
        }
    }
}

/// Frames one payload: `Ok` with its frame, or `Err` where the payload is
/// too long for one.
pub fn frame(payload: &Vec<u8>) -> (framing: Result<Vec<u8>, FrameError>)
    ensures
        match framing {
            Ok(bytes) => payload@.len() <= MAX_FRAME_LEN && bytes@ == framed(payload@),
            Err(error) => payload@.len() > MAX_FRAME_LEN && error == FrameError::TooLong,
        },
{
    let len: usize = payload.len();
    if len > MAX_FRAME_LEN {
        return Err(FrameError::TooLong);
    }
    let mut bytes: Vec<u8> = Vec::with_capacity(HEADER_LEN + len);
    bytes.push((len / 16_777_216) as u8);
    bytes.push((len / 65_536 % 256) as u8);
    bytes.push((len / 256 % 256) as u8);
    bytes.push((len % 256) as u8);
    bytes.extend_from_slice(payload.as_slice());
    Ok(bytes)
}

/// Takes the frame at the front of `buffer` off it: `Ok` with its payload,
/// `Ok` with nothing where the frame is not whole yet, or `Err` where the
/// header announces too much. Only a whole frame changes the buffer.
pub fn take_frame(buffer: &mut Vec<u8>) -> (taken: Result<Option<Vec<u8>>, FrameError>)
    ensures
        match unframed(old(buffer)@) {
            Unframed::Incomplete => taken == Ok::<Option<Vec<u8>>, FrameError>(None)
                && final(buffer)@ == old(buffer)@,
            Unframed::TooLong => taken == Err::<Option<Vec<u8>>, FrameError>(FrameError::TooLong)
                && final(buffer)@ == old(buffer)@,
            Unframed::Frame { payload, rest } => {
                &&& taken matches Ok(Some(bytes)) && bytes@ == payload
                &&& final(buffer)@ == rest
            },
        },
{
    if buffer.len() < HEADER_LEN {
        return Ok(None);
    }
    let high: usize = buffer[0] as usize;
    let upper: usize = buffer[1] as usize;
    let lower: usize = buffer[2] as usize;
    let low: usize = buffer[3] as usize;
    if high > 0 {
        // Sixteen mebibytes or more.
        return Err(FrameError::TooLong);
    }
    let len: usize = upper * 65_536 + lower * 256 + low;
    if len > MAX_FRAME_LEN {
        return Err(FrameError::TooLong);
    }
    if buffer.len() - HEADER_LEN < len {
        return Ok(None);
    }
    let mut front = buffer.split_off(HEADER_LEN + len);
    core::mem::swap(buffer, &mut front);
    let payload = front.split_off(HEADER_LEN);
    Ok(Some(payload))
}

/// The header of a length that fits in a frame holds that length.
pub proof fn lemma_header_holds_length(len: nat)
    requires
        len <= MAX_FRAME_LEN,
    ensures
        header_of(len).len() == HEADER_LEN,
        length_in(header_of(len)) == len,
{
}

/// What was framed is taken off a buffer as it was sent: a frame at the
/// front of a buffer yields its payload, whole and alone, and leaves what
/// came after it.
pub proof fn lemma_frame_round_trip(payload: Seq<u8>, rest: Seq<u8>)
    requires
        payload.len() <= MAX_FRAME_LEN,
    ensures
        unframed(framed(payload) + rest) == (Unframed::Frame { payload, rest }),
{
    let buffer = framed(payload) + rest;
    let len = payload.len();
    lemma_header_holds_length(len);
    assert(buffer.subrange(HEADER_LEN as int, HEADER_LEN + len) =~= payload);
    assert(buffer.skip(HEADER_LEN + len) =~= rest);
}

/// A frame of which a part is still to come is not taken for a frame.
pub proof fn lemma_part_of_a_frame_is_incomplete(payload: Seq<u8>, arrived: int)
    requires
        payload.len() <= MAX_FRAME_LEN,
        0 <= arrived < framed(payload).len(),
    ensures
        unframed(framed(payload).take(arrived)) == Unframed::Incomplete,
{
    lemma_header_holds_length(payload.len());
}

} // verus!
