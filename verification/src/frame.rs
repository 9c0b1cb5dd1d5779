//! Decoding of the fixed 7-byte wire frames.
//!
//! The stream carries back-to-back frames with no delimiters: one byte of
//! command identifier, one byte of hardware identifier, four bytes holding a
//! 32-bit value little-endian, and one trailing byte. `FrameDecoder`
//! accumulates bytes and yields exactly one `Frame` per 7 bytes consumed.

use vstd::prelude::*;

verus! {

/// The number of bytes in one wire frame.
pub const FRAME_LEN: usize = 7;

/// One fully decoded wire frame.
#[derive(Clone, Copy, PartialEq, Eq, Structural, Debug)]
pub struct Frame {
    pub command_id: u8,
    pub hardware_id: u8,
    pub value: u32,
}

/// The 32-bit value carried little-endian in bytes 2 through 5 of a frame
/// window.
pub open spec fn le_value(w: Seq<u8>) -> u32
    recommends
        w.len() == FRAME_LEN,
{
    vstd::bytes::spec_u32_from_le_bytes(w.subrange(2, 6))
}

/// The frame encoded by one complete 7-byte window.
pub open spec fn frame_of(w: Seq<u8>) -> Frame
    recommends
        w.len() == FRAME_LEN,
{
    Frame { command_id: w[0], hardware_id: w[1], value: le_value(w) }
}

/// All frames carried by a byte stream that starts on a frame boundary:
/// one per full 7-byte window, in stream order.
pub open spec fn frames_of(s: Seq<u8>) -> Seq<Frame> {
    Seq::new(s.len() / (FRAME_LEN as nat), |i: int| frame_of(s.subrange(7 * i, 7 * i + 7)))
}

/// The bytes of a stream left over after its last full 7-byte window.
pub open spec fn stream_leftover(s: Seq<u8>) -> Seq<u8> {
    s.subrange(s.len() - (s.len() % (FRAME_LEN as nat)), s.len() as int)
}

/// Stateful byte-to-frame assembler. Its view is the sequence of bytes
/// accumulated so far towards the next frame, always shorter than one frame.
pub struct FrameDecoder {
    buf: Vec<u8>,
}

impl View for FrameDecoder {
    type V = Seq<u8>;

    closed spec fn view(&self) -> Seq<u8> {
        self.buf@
    }
}

impl FrameDecoder {
    /// A decoder never holds a full frame between calls.
    pub open spec fn wf(&self) -> bool {
        self@.len() < FRAME_LEN
    }

    /// A fresh decoder, expecting the first byte of a frame.
    pub fn new() -> (d: FrameDecoder)
        ensures
            d@ =~= Seq::<u8>::empty(),
            d.wf(),
    {
        FrameDecoder { buf: Vec::new() }
    }

    /// Consumes one byte; yields the decoded frame exactly when this byte
    /// completes a 7-byte window, and then starts over on an empty buffer.
    pub fn push_byte(&mut self, b: u8) -> (r: Option<Frame>)
        requires
            old(self).wf(),
        ensures
            final(self).wf(),
            old(self)@.len() == FRAME_LEN - 1 ==> r == Some(frame_of(old(self)@.push(b)))
                && final(self)@ =~= Seq::<u8>::empty(),
            old(self)@.len() < FRAME_LEN - 1 ==> r is None && final(self)@ == old(self)@.push(b),
    {
        self.buf.push(b);
        if self.buf.len() == FRAME_LEN {
            let f = decode_window(&self.buf);
            self.buf = Vec::new();
            Some(f)
        } else {
            None
        }
    }

    /// Runs a whole chunk of input through the decoder. One frame comes out
    /// per full 7-byte window of the accumulated stream, in stream order, and
    /// the bytes past the last full window stay pending.
    pub fn feed(&mut self, bytes: &Vec<u8>) -> (frames: Vec<Frame>)
        requires
            old(self).wf(),
        ensures
            final(self).wf(),
            frames@ == frames_of(old(self)@ + bytes@),
            final(self)@ == stream_leftover(old(self)@ + bytes@),
    {
        let ghost combined = old(self)@ + bytes@;
        let mut frames: Vec<Frame> = Vec::new();
        let mut i: usize = 0;
        while i < bytes.len()
            invariant
                old(self).wf(),
                self.wf(),
                i <= bytes.len(),
                combined == old(self)@ + bytes@,
                7 * frames@.len() + self@.len() == old(self)@.len() + i,
                self@ == combined.subrange(
                    7 * frames@.len() as int,
                    old(self)@.len() + i as int,
                ),
                forall|k: int|
                    0 <= k < frames@.len() ==> frames@[k] == frame_of(
                        combined.subrange(7 * k, 7 * k + 7),
                    ),
            decreases bytes.len() - i,
        {
            let ghost consumed = old(self)@.len() + i as int;
            assert(combined[consumed] == bytes@[i as int]);
            assert(self@.push(bytes@[i as int]) =~= combined.subrange(
                7 * frames@.len() as int,
                consumed + 1,
            ));
            let r = self.push_byte(bytes[i]);
            if let Some(f) = r {
                let ghost flen = frames@.len() as int;
                assert(f == frame_of(combined.subrange(7 * flen, 7 * flen + 7)));
                frames.push(f);
            }
            i = i + 1;
        }
        proof {
            let n = combined.len() as int;
            assert(7 * frames@.len() + self@.len() == n);
            assert(frames@.len() == combined.len() / 7 && self@.len() == combined.len() % 7) by {
                vstd::arithmetic::div_mod::lemma_fundamental_div_mod_converse(
                    n,
                    7,
                    frames@.len() as int,
                    self@.len() as int,
                );
            }
            assert(frames@ =~= frames_of(combined));
            assert(self@ =~= stream_leftover(combined));
        }
        frames
    }
}

/// Decodes one complete 7-byte window into a frame.
fn decode_window(w: &Vec<u8>) -> (f: Frame)
    requires
        w@.len() == FRAME_LEN,
    ensures
        f == frame_of(w@),
{
    let value = vstd::bytes::u32_from_le_bytes(vstd::slice::slice_subrange(w.as_slice(), 2, 6));
    Frame { command_id: w[0], hardware_id: w[1], value }
}

} // verus!
