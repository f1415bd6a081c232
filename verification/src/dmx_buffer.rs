//! The frame buffer: one DMX512 universe of 512 one-byte channels.

use vstd::prelude::*;

verus! {

/// Number of channels in one DMX512 universe.
pub const CHANNELS: usize = 512;

/// A fixed buffer of 512 channel values.
#[derive(Clone, Copy, Debug)]
pub struct DmxBuffer {
    values: [u8; 512],
}

impl View for DmxBuffer {
    type V = Seq<u8>;

    closed spec fn view(&self) -> Seq<u8> {
        self.values@
    }
}

/// The frame in which every channel is dark.
pub open spec fn blank_frame() -> Seq<u8> {
    Seq::new(512, |i: int| 0u8)
}

/// The frame `frame` after `values` were written from channel `offset` on;
/// channels past the end of the universe are left out.
pub open spec fn frame_with_run(frame: Seq<u8>, offset: int, values: Seq<u8>) -> Seq<u8> {
    Seq::new(
        frame.len(),
        |i: int|
            if offset <= i < offset + values.len() {
                values[i - offset]
            } else {
                frame[i]
            },
    )
}

impl DmxBuffer {
    /// A buffer with every channel at zero.
    pub fn new() -> (buffer: DmxBuffer)
        ensures
            buffer@ == blank_frame(),
    {
        let buffer = DmxBuffer { values: [0u8; 512] };
        assert(buffer@ =~= blank_frame());
        buffer
    }

    /// Sets one channel. A channel outside the universe is ignored.
    pub fn set_value(&mut self, dmx_channel: usize, value: u8)
        ensures
            final(self)@.len() == 512,
            dmx_channel < 512 ==> final(self)@ == old(self)@.update(dmx_channel as int, value),
            dmx_channel >= 512 ==> final(self)@ == old(self)@,
    {
        if dmx_channel < CHANNELS {
            self.values[dmx_channel] = value;
        }
    }

    /// Replaces the whole frame.
    pub fn set_values(&mut self, values: [u8; 512])
        ensures
            final(self)@ == values@,
    {
        self.values = values;
    }

    /// The whole frame, channel 0 first.
    pub fn get_values(&self) -> (values: [u8; 512])
        ensures
            values@ == self@,
    {
        self.values
    }

    /// Writes `values` to consecutive channels starting at `offset`. Values
    /// that would fall past channel 511 are dropped.
    pub fn write_at_index(&mut self, offset: u8, values: Vec<u8>)
        ensures
            final(self)@ == frame_with_run(old(self)@, offset as int, values@),
    {
        let start: usize = offset as usize;
        let mut i: usize = 0;
        while i < values.len() && start + i < CHANNELS
            invariant
                start == offset as usize,
                i <= values.len(),
                start + i <= 512,
                self.values@.len() == 512,
                forall|k: int|
                    0 <= k < 512 ==> self.values@[k] == if start <= k < start + i {
                        values@[k - start]
                    } else {
                        old(self).values@[k]
                    },
            decreases values.len() - i,
        {
            self.values[start + i] = values[i];
            i += 1;
        }
        assert(self@ =~= frame_with_run(old(self)@, offset as int, values@));
    }

    /// Sets every channel back to zero.
    pub fn reset(&mut self)
        ensures
            final(self)@ == blank_frame(),
    {
        self.values = [0u8; 512];
        assert(self@ =~= blank_frame());
    }
}

} // verus!
