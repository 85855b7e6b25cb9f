//! Audio effects and the order in which decoded samples are handed out.

use vstd::prelude::*;

verus! {

/// A reverb effect; it holds no settings yet.
#[derive(Clone, Copy, PartialEq, Eq, Structural, Debug)]
pub struct Reverb {}

impl Default for Reverb {
    fn default() -> (r: Self)
        ensures
            r == (Reverb {}),
    {
        Reverb {}
    }
}

/// A channel of a stereo stream.
#[derive(Clone, Copy, PartialEq, Eq, Structural, Debug)]
pub enum Channel {
    Left,
    Right,
}

/// The place of the next sample in a decoded stereo frame: the channel and
/// the position within that channel. Samples are handed out interleaved,
/// left then right at each position.
pub struct SampleCursor {
    channel: Channel,
    offset: usize,
}

impl SampleCursor {
    /// The channel of the next sample.
    pub closed spec fn cur_channel(&self) -> Channel {
        self.channel
    }

    /// The position of the next sample within its channel.
    pub closed spec fn cur_offset(&self) -> nat {
        self.offset as nat
    }

    /// The start of a frame.
    pub fn new() -> (r: Self)
        ensures
            r.cur_channel() == Channel::Left,
            r.cur_offset() == 0,
    {
        SampleCursor { channel: Channel::Left, offset: 0 }
    }

    /// Whether the frame, whose current channel holds `len` samples, is used
    /// up; if so the cursor goes back to the start for the next frame.
    pub fn frame_done(&mut self, len: usize) -> (r: bool)
        ensures
            r == (old(self).cur_offset() == len),
            final(self).cur_channel() == old(self).cur_channel(),
            final(self).cur_offset() == if r {
                0
            } else {
                old(self).cur_offset()
            },
    {
        if self.offset == len {
            self.offset = 0;
            true
        } else {
            false
        }
    }

    /// The channel index (0 for left, 1 for right) and position of the next
    /// sample; the cursor moves to the right channel, or from the right
    /// channel to the left one at the next position.
    pub fn advance(&mut self) -> (r: (usize, usize))
        requires
            old(self).cur_offset() < usize::MAX,
        ensures
            r.0 == (if old(self).cur_channel() == Channel::Left {
                0usize
            } else {
                1usize
            }),
            r.1 == old(self).cur_offset(),
            final(self).cur_channel() == (if old(self).cur_channel() == Channel::Left {
                Channel::Right
            } else {
                Channel::Left
            }),
            final(self).cur_offset() == if old(self).cur_channel() == Channel::Left {
                old(self).cur_offset()
            } else {
                old(self).cur_offset() + 1
            },
    {
        let at = self.offset;
        match self.channel {
            Channel::Left => {
                self.channel = Channel::Right;
                (0, at)
            },
            Channel::Right => {
                self.offset = self.offset + 1;
                self.channel = Channel::Left;
                (1, at)
            },
        }
    }
}

} // verus!
