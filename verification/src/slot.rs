//! One loop slot: a preallocated capture buffer and the record / loop /
//! idle state machine that beat boundaries drive.

use vstd::prelude::*;

verus! {

use crate::fixed::AMP_LIMIT;

/// Which beats count as a boundary for a loop of `length` beats: loops
/// snap to the power-of-two grid above their length; length 0 disables
/// the slot; lengths of 33 beats and more only start at the first beat.
pub open spec fn spec_boundary_fires(length: u32, beat: u32) -> bool {
    if length == 0 {
        false
    } else if length == 1 {
        true
    } else if length == 2 {
        beat % 2 == 1
    } else if length <= 4 {
        beat % 4 == 1
    } else if length <= 8 {
        beat % 8 == 1
    } else if length <= 16 {
        beat % 16 == 1
    } else if length <= 32 {
        beat % 32 == 1
    } else {
        beat == 1
    }
}

/// Evaluate the boundary table for a loop length at a beat.
pub fn boundary_fires(length: u32, beat: u32) -> (b: bool)
    ensures
        b == spec_boundary_fires(length, beat),
{
    match length {
        0 => false,
        1 => true,
        2 => beat % 2 == 1,
        3..=4 => beat % 4 == 1,
        5..=8 => beat % 8 == 1,
        9..=16 => beat % 16 == 1,
        17..=32 => beat % 32 == 1,
        _ => beat == 1,
    }
}

/// The boundary table, spelled out band by band: a disabled slot never
/// fires; one-beat loops fire every beat; longer loops fire only on the
/// first beat of their power-of-two grid; loops of 33 beats and more fire
/// only on beat one.
pub proof fn lemma_boundary_table(length: u32, beat: u32)
    ensures
        length == 0 ==> !spec_boundary_fires(length, beat),
        length == 1 ==> spec_boundary_fires(length, beat),
        length == 2 ==> (spec_boundary_fires(length, beat) <==> beat % 2 == 1),
        3 <= length <= 4 ==> (spec_boundary_fires(length, beat) <==> beat % 4 == 1),
        5 <= length <= 8 ==> (spec_boundary_fires(length, beat) <==> beat % 8 == 1),
        9 <= length <= 16 ==> (spec_boundary_fires(length, beat) <==> beat % 16 == 1),
        17 <= length <= 32 ==> (spec_boundary_fires(length, beat) <==> beat % 32 == 1),
        length >= 33 ==> (spec_boundary_fires(length, beat) <==> beat == 1),
{
}

pub struct LoopSlot {
    /// Preallocated capture buffer; never grows or shrinks.
    pub buffer: Vec<i64>,
    /// The buffer holds a complete recorded loop.
    pub filled: bool,
    /// The slot is playing its buffer back.
    pub looping: bool,
    /// The slot is recording into its buffer.
    pub capturing: bool,
    /// Read/write position into the buffer.
    pub pos: usize,
    /// The beat at which the running capture started.
    pub record_start_beat: u32,
}

impl LoopSlot {
    pub open spec fn wf(self) -> bool {
        &&& self.buffer.len() >= 1
        &&& !(self.looping && self.capturing)
        &&& self.looping ==> self.filled
        &&& self.capturing ==> !self.filled
        &&& (self.looping || self.capturing) ==> self.pos < self.buffer.len()
        &&& self.pos <= self.buffer.len()
        &&& forall|i: int|
            0 <= i < self.buffer.len() ==> -AMP_LIMIT <= #[trigger] self.buffer@[i] <= AMP_LIMIT
    }

    /// An idle slot with a silent buffer of `capacity` samples.
    pub fn new(capacity: usize) -> (s: LoopSlot)
        requires
            capacity >= 1,
        ensures
            s.wf(),
            s.buffer.len() == capacity,
            forall|i: int| 0 <= i < capacity ==> s.buffer@[i] == 0,
            !s.filled,
            !s.looping,
            !s.capturing,
            s.pos == 0,
            s.record_start_beat == 0,
    {
        let mut buffer: Vec<i64> = Vec::new();
        while buffer.len() < capacity
            invariant
                buffer.len() <= capacity,
                forall|i: int| 0 <= i < buffer.len() ==> buffer@[i] == 0,
            decreases capacity - buffer.len(),
        {
            buffer.push(0);
        }
        LoopSlot {
            buffer,
            filled: false,
            looping: false,
            capturing: false,
            pos: 0,
            record_start_beat: 0,
        }
    }

    /// Whether a capture that started at `record_start_beat` has run for
    /// the requested number of beats by `beat`.
    pub open spec fn spec_capture_done(self, length: u32, beat: u32) -> bool {
        self.capturing && self.record_start_beat <= beat && beat - self.record_start_beat >= length
    }

    /// The slot state after a fired boundary, given the control plane's
    /// `starting` flag for it.
    pub open spec fn spec_after_boundary(self, length: u32, starting: bool, beat: u32) -> LoopSlot {
        // A finished capture turns into a playing loop.
        let s1 = if self.spec_capture_done(length, beat) {
            LoopSlot { filled: true, capturing: false, looping: true, ..self }
        } else {
            self
        };
        // The control flag arms the slot or lets it fall back to idle.
        let s2 = if starting {
            if s1.filled {
                LoopSlot { looping: true, ..s1 }
            } else {
                LoopSlot { capturing: true, record_start_beat: beat, pos: 0, ..s1 }
            }
        } else if s1.filled {
            LoopSlot { looping: false, ..s1 }
        } else {
            s1
        };
        // An active loop restarts its buffer at every boundary.
        if s2.looping {
            LoopSlot { pos: 0, ..s2 }
        } else {
            s2
        }
    }

    /// Whether the boundary publishes a new `loop_recording` value, and
    /// which: starting a capture publishes true, finishing one false.
    pub open spec fn spec_boundary_recording(self, length: u32, starting: bool, beat: u32) -> Option<
        bool,
    > {
        let done = self.spec_capture_done(length, beat);
        let filled1 = self.filled || done;
        if starting && !filled1 {
            Some(true)
        } else if done {
            Some(false)
        } else {
            None
        }
    }

    /// Apply the record / loop / idle transitions at a fired boundary.
    /// Returns what the slot publishes to the control plane:
    /// the new `loop_playing` value and, if any, a `loop_recording` value.
    pub fn on_boundary(&mut self, length: u32, starting: bool, beat: u32) -> (out: (bool, Option<
        bool,
    >))
        requires
            old(self).wf(),
        ensures
            final(self).wf(),
            *final(self) == old(self).spec_after_boundary(length, starting, beat),
            out.0 == final(self).looping,
            out.1 == old(self).spec_boundary_recording(length, starting, beat),
            final(self).buffer@ == old(self).buffer@,
            final(self).looping || final(self).capturing ==> final(self).pos == 0 || (old(
                self,
            ).capturing && !old(self).spec_capture_done(length, beat) && final(self).pos == old(
                self,
            ).pos),
    {
        let mut recording: Option<bool> = None;
        if self.capturing && beat >= self.record_start_beat && beat - self.record_start_beat
            >= length {
            self.filled = true;
            self.capturing = false;
            self.looping = true;
            recording = Some(false);
        }
        if starting {
            if self.filled {
                self.looping = true;
            } else {
                self.capturing = true;
                self.record_start_beat = beat;
                self.pos = 0;
                recording = Some(true);
            }
        } else if self.filled {
            self.looping = false;
        }
        if self.looping {
            self.pos = 0;
        }
        (self.looping, recording)
    }

    /// The sample the loop is currently playing back.
    pub fn play_sample(&self) -> (s: i64)
        requires
            self.wf(),
            self.looping,
        ensures
            s == self.buffer@[self.pos as int],
            -AMP_LIMIT <= s <= AMP_LIMIT,
    {
        self.buffer[self.pos]
    }

    /// Record one sample of the running capture.
    pub fn capture_sample(&mut self, s: i64)
        requires
            old(self).wf(),
            old(self).capturing,
            -AMP_LIMIT <= s <= AMP_LIMIT,
        ensures
            final(self).wf(),
            *final(self) == (LoopSlot {
                buffer: final(self).buffer,
                ..*old(self)
            }),
            final(self).buffer@ == old(self).buffer@.update(old(self).pos as int, s),
    {
        let p = self.pos;
        self.buffer.set(p, s);
    }

    /// Advance the position after a played or recorded sample.  The
    /// position saturates at the end of the buffer instead of running out
    /// of it, so an overlong loop repeats its last sample.
    pub fn advance(&mut self)
        requires
            old(self).wf(),
        ensures
            final(self).wf(),
            final(self).buffer@ == old(self).buffer@,
            final(self).filled == old(self).filled,
            final(self).looping == old(self).looping,
            final(self).capturing == old(self).capturing,
            final(self).record_start_beat == old(self).record_start_beat,
            final(self).pos == if (old(self).looping || old(self).capturing) && old(self).pos + 1
                < old(self).buffer.len() {
                old(self).pos + 1
            } else {
                old(self).pos as int
            },
    {
        if (self.looping || self.capturing) && self.pos + 1 < self.buffer.len() {
            self.pos = self.pos + 1;
        }
    }
}

} // verus!
