//! A one-shot sample pad: a fixed buffer played front to back on demand.

use vstd::prelude::*;

verus! {

use crate::fixed::{UNIT, AMP_LIMIT};

pub struct SamplePad {
    /// The stored mono samples.
    pub buffer: Vec<i64>,
    /// Read position of the current playback.
    pub pos: usize,
    /// Whether a playback is running.
    pub playing: bool,
}

impl SamplePad {
    pub open spec fn wf(self) -> bool {
        &&& self.playing ==> self.pos < self.buffer.len()
        &&& forall|i: int|
            0 <= i < self.buffer.len() ==> -AMP_LIMIT <= #[trigger] self.buffer@[i] <= AMP_LIMIT
    }

    /// The fixed-point sample a 16-bit PCM value stands for.
    pub open spec fn spec_from_pcm(s: int) -> int {
        if s >= 0 {
            s * UNIT / 32767
        } else {
            -(-s * UNIT / 32767)
        }
    }

    /// A pad with nothing loaded.
    pub fn empty() -> (p: SamplePad)
        ensures
            p.wf(),
            p.buffer.len() == 0,
            p.pos == 0,
            !p.playing,
    {
        SamplePad { buffer: Vec::new(), pos: 0, playing: false }
    }

    /// Load a pad from decoded 16-bit PCM samples, scaling each to fixed
    /// point (full scale 32767 maps to `UNIT`).
    pub fn from_pcm(samples: &Vec<i16>) -> (p: SamplePad)
        ensures
            p.wf(),
            p.buffer.len() == samples.len(),
            forall|i: int|
                0 <= i < samples.len() ==> #[trigger] p.buffer@[i] == Self::spec_from_pcm(
                    samples@[i] as int,
                ),
            p.pos == 0,
            !p.playing,
    {
        let mut buffer: Vec<i64> = Vec::new();
        let mut i: usize = 0;
        while i < samples.len()
            invariant
                i <= samples.len(),
                buffer.len() == i,
                forall|j: int|
                    0 <= j < i ==> #[trigger] buffer@[j] == Self::spec_from_pcm(samples@[j] as int),
                forall|j: int| 0 <= j < i ==> -AMP_LIMIT <= #[trigger] buffer@[j] <= AMP_LIMIT,
            decreases samples.len() - i,
        {
            let s = samples[i] as i64;
            let mag: i64 = if s >= 0 {
                s
            } else {
                -s
            };
            let v: i64 = (mag * UNIT) / 32767;
            proof {
                assert(0 <= (mag as int) * UNIT / 32767 <= AMP_LIMIT) by (nonlinear_arith)
                    requires
                        0 <= mag <= 32768,
                ;
            }
            if s >= 0 {
                buffer.push(v);
            } else {
                buffer.push(-v);
            }
            i = i + 1;
        }
        SamplePad { buffer, pos: 0, playing: false }
    }

    /// Start playback from the beginning, unless already playing or empty.
    pub fn start(&mut self)
        requires
            old(self).wf(),
        ensures
            final(self).wf(),
            final(self).buffer@ == old(self).buffer@,
            !old(self).playing && old(self).buffer.len() > 0 ==> final(self).playing
                && final(self).pos == 0,
            old(self).playing || old(self).buffer.len() == 0 ==> *final(self) == *old(self),
    {
        if !self.playing && self.buffer.len() > 0 {
            self.pos = 0;
            self.playing = true;
        }
    }

    /// Whether playback has run to the end (or never started).
    pub fn ended(&self) -> (e: bool)
        ensures
            e == !self.playing,
    {
        !self.playing
    }

    /// The next sample of the running playback, or silence when stopped.
    /// Playback stops after the last sample.
    pub fn next_sample(&mut self) -> (s: i64)
        requires
            old(self).wf(),
        ensures
            final(self).wf(),
            final(self).buffer@ == old(self).buffer@,
            !old(self).playing ==> s == 0 && *final(self) == *old(self),
            old(self).playing ==> s == old(self).buffer@[old(self).pos as int] && final(self).pos
                == old(self).pos + 1 && final(self).playing == (old(self).pos + 1 < old(
                self,
            ).buffer.len()),
            -AMP_LIMIT <= s <= AMP_LIMIT,
    {
        if !self.playing {
            return 0;
        }
        let s = self.buffer[self.pos];
        self.pos = self.pos + 1;
        if self.pos >= self.buffer.len() {
            self.playing = false;
        }
        s
    }
}

impl Default for SamplePad {
    fn default() -> (p: SamplePad)
        ensures
            p.wf(),
            p.buffer.len() == 0,
            !p.playing,
    {
        SamplePad::empty()
    }
}

} // verus!
