//! Framing for a link over a byte stream that loses nothing and carries all
//! eight bits of a byte.
//!
//! A frame is its length less one, as 16 bits with the low byte first, and
//! then its bytes. A frame holds at least one byte and at most 65536.

use vstd::prelude::*;

verus! {

/// The most bytes that a frame can hold.
pub const MAX_FRAME_LENGTH: usize = 65536;

/// Why a packet could not be framed.
#[derive(Debug, Clone, Copy, PartialEq, Eq, Structural)]
pub enum FrameError {
    /// The packet, of this many bytes, is too long for a frame.
    TooLong(usize),
}

/// What was found at the start of a stream of bytes.
#[derive(Debug, PartialEq, Eq)]
pub struct Deframed {
    /// The frame that was found, if any.
    pub frame: Option<Vec<u8>>,
    /// The number of bytes that were skipped as belonging to no frame.
    pub unframed_bytes: usize,
    /// Where the rest of the stream starts.
    pub new_start_pos: usize,
}

/// Framing format that assumes a lossless underlying byte stream that can
/// transport all 8 bits of a byte.
#[derive(Debug, Clone, Copy)]
pub struct LosslessBinary;

/// The frame around the packet `bytes`.
pub open spec fn spec_frame(bytes: Seq<u8>) -> Seq<u8> {
    seq![((bytes.len() - 1) % 256) as u8, ((bytes.len() - 1) / 256) as u8] + bytes
}

/// The length of the frame that a stream of at least two bytes starts with,
/// as its first two bytes give it.
pub open spec fn spec_frame_length(stream: Seq<u8>) -> int {
    1 + stream[0] + stream[1] * 256
}

/// Whether a stream starts with a whole frame that the deframer hands out. A
/// stream of three bytes or fewer is always left to grow.
pub open spec fn spec_has_frame(stream: Seq<u8>) -> bool {
    stream.len() > 3 && stream.len() >= 2 + spec_frame_length(stream)
}

impl LosslessBinary {
    /// Appends the frame around the packet `bytes` to `outgoing`. A packet of
    /// more than 65536 bytes is refused, and nothing is appended.
    pub fn frame(&self, bytes: &[u8], outgoing: &mut Vec<u8>) -> (result: Result<(), FrameError>)
        requires
            bytes@.len() > 0,
        ensures
            match result {
                Ok(()) => bytes@.len() <= MAX_FRAME_LENGTH && final(outgoing)@ == old(outgoing)@
                    + spec_frame(bytes@),
                Err(e) => bytes@.len() > MAX_FRAME_LENGTH && e == FrameError::TooLong(
                    bytes@.len() as usize,
                ) && final(outgoing)@ == old(outgoing)@,
            },
    {
        if bytes.len() > MAX_FRAME_LENGTH {
            return Err(FrameError::TooLong(bytes.len()));
        }
        let length = bytes.len() - 1;
        outgoing.push((length % 256) as u8);
        outgoing.push((length / 256) as u8);
        let mut i: usize = 0;
        while i < bytes.len()
            invariant
                i <= bytes@.len(),
                outgoing@ == old(outgoing)@ + seq![
                    ((bytes@.len() - 1) % 256) as u8,
                    ((bytes@.len() - 1) / 256) as u8,
                ] + bytes@.subrange(0, i as int),
            decreases bytes.len() - i,
        {
            outgoing.push(bytes[i]);
            i += 1;
            assert(outgoing@ =~= old(outgoing)@ + seq![
                ((bytes@.len() - 1) % 256) as u8,
                ((bytes@.len() - 1) / 256) as u8,
            ] + bytes@.subrange(0, i as int));
        }
        assert(bytes@.subrange(0, i as int) =~= bytes@);
        assert(outgoing@ =~= old(outgoing)@ + spec_frame(bytes@));
        Ok(())
    }

    /// Takes the frame that the stream `bytes` starts with, where the whole
    /// frame is there. Where it is not, nothing is taken, and the stream is to
    /// be tried again when it has grown.
    pub fn deframe(&self, bytes: &[u8]) -> (deframed: Deframed)
        ensures
            deframed.unframed_bytes == 0,
            match deframed.frame {
                Some(frame) => {
                    &&& spec_has_frame(bytes@)
                    &&& frame@ == bytes@.subrange(2, 2 + spec_frame_length(bytes@))
                    &&& deframed.new_start_pos == 2 + spec_frame_length(bytes@)
                },
                None => !spec_has_frame(bytes@) && deframed.new_start_pos == 0,
            },
    {
        if bytes.len() <= 3 {
            return Deframed { frame: None, unframed_bytes: 0, new_start_pos: 0 };
        }
        let low: usize = bytes[0] as usize;
        let high: usize = bytes[1] as usize;
        let len: usize = 1 + low + high * 256;
        if bytes.len() < 2 + len {
            // Not enough bytes to deframe: done for now.
            return Deframed { frame: None, unframed_bytes: 0, new_start_pos: 0 };
        }
        let frame = vstd::slice::slice_to_vec(vstd::slice::slice_subrange(bytes, 2, 2 + len));
        Deframed { frame: Some(frame), unframed_bytes: 0, new_start_pos: 2 + len }
    }
}

/// A packet of at least two bytes that was framed is what the deframer takes
/// from a stream that starts with the frame, whatever follows it; the rest of
/// the stream starts behind the frame.
pub proof fn lemma_frame_roundtrip(bytes: Seq<u8>, rest: Seq<u8>)
    requires
        2 <= bytes.len() <= MAX_FRAME_LENGTH,
    ensures
        spec_has_frame(spec_frame(bytes) + rest),
        spec_frame_length(spec_frame(bytes) + rest) == bytes.len(),
        (spec_frame(bytes) + rest).subrange(2, 2 + bytes.len() as int) == bytes,
        (spec_frame(bytes) + rest).subrange(2 + bytes.len() as int, (spec_frame(bytes) + rest).len() as int)
            == rest,
{
    let stream = spec_frame(bytes) + rest;
    assert(stream[0] == ((bytes.len() - 1) % 256) as u8);
    assert(stream[1] == ((bytes.len() - 1) / 256) as u8);
    assert(stream.subrange(2, 2 + bytes.len() as int) =~= bytes);
    assert(stream.subrange(2 + bytes.len() as int, stream.len() as int) =~= rest);
}

/// A frame whose bytes have not all arrived is left alone: of a framed packet
/// no proper beginning holds a frame.
pub proof fn lemma_partial_frame_waits(bytes: Seq<u8>, arrived: int)
    requires
        1 <= bytes.len() <= MAX_FRAME_LENGTH,
        0 <= arrived < spec_frame(bytes).len(),
    ensures
        !spec_has_frame(spec_frame(bytes).subrange(0, arrived)),
{
    let stream = spec_frame(bytes).subrange(0, arrived);
    if arrived > 3 {
        assert(stream[0] == ((bytes.len() - 1) % 256) as u8);
        assert(stream[1] == ((bytes.len() - 1) / 256) as u8);
    }
}

} // verus!
