//! Phase-accumulating sine oscillator.
//!
//! The phase is kept in fixed-point turns (one turn == [`UNIT`]) and
//! frequencies in milli-hertz, so the per-sample increment and the wrap
//! are exact integer arithmetic.

use vstd::prelude::*;

verus! {

use crate::fixed::{UNIT, sin_turns, spec_sin_turns};

/// Highest supported sample rate.
pub const MAX_SAMPLE_RATE: i64 = 1_000_000;

#[derive(Clone, Copy)]
pub struct Oscillator {
    /// Current frequency in milli-hertz.
    pub freq_millihz: i64,
    /// Sample rate in hertz, fixed at construction.
    pub sample_rate: i64,
    /// Phase in fixed-point turns, always in `[0, UNIT)`.
    pub phase: i64,
    /// Phase advance per sample in fixed-point turns.
    pub phase_increment: i64,
}

impl Oscillator {
    pub open spec fn wf(self) -> bool {
        &&& 1 <= self.sample_rate <= MAX_SAMPLE_RATE
        &&& 0 <= self.freq_millihz <= 1000 * self.sample_rate
        &&& 0 <= self.phase < UNIT
        &&& self.phase_increment == Self::spec_increment_for(self.freq_millihz as int, self.sample_rate as int)
        &&& 0 <= self.phase_increment <= UNIT
    }

    /// Turns per sample for a frequency: `freq / (1000 * sample_rate)` of
    /// a turn, in fixed point.
    pub open spec fn spec_increment_for(freq_millihz: int, sample_rate: int) -> int {
        freq_millihz * UNIT / (1000 * sample_rate)
    }

    /// The oscillator after [`Oscillator::set_freq`].
    pub open spec fn spec_after_set_freq(self, freq_millihz: i64) -> Oscillator {
        Oscillator {
            freq_millihz,
            phase_increment: (Self::spec_increment_for(
                freq_millihz as int,
                self.sample_rate as int,
            )) as i64,
            ..self
        }
    }

    /// The phase after one sample: advanced and wrapped into `[0, UNIT)`.
    pub open spec fn spec_next_phase(self) -> int {
        if self.phase + self.phase_increment < UNIT {
            self.phase + self.phase_increment
        } else {
            self.phase + self.phase_increment - UNIT
        }
    }

    pub fn new(freq_millihz: i64, sample_rate: i64) -> (o: Oscillator)
        requires
            1 <= sample_rate <= MAX_SAMPLE_RATE,
            0 <= freq_millihz <= 1000 * sample_rate,
        ensures
            o.wf(),
            o.freq_millihz == freq_millihz,
            o.sample_rate == sample_rate,
            o.phase == 0,
    {
        let phase_increment = Self::increment_for(freq_millihz, sample_rate);
        Oscillator { freq_millihz, sample_rate, phase: 0, phase_increment }
    }

    /// Compute the per-sample phase advance for a frequency.
    fn increment_for(freq_millihz: i64, sample_rate: i64) -> (inc: i64)
        requires
            1 <= sample_rate <= MAX_SAMPLE_RATE,
            0 <= freq_millihz <= 1000 * sample_rate,
        ensures
            inc == Self::spec_increment_for(freq_millihz as int, sample_rate as int),
            0 <= inc <= UNIT,
    {
        proof {
            assert(0 <= freq_millihz * UNIT <= (1000 * sample_rate) * UNIT) by (nonlinear_arith)
                requires
                    0 <= freq_millihz <= 1000 * sample_rate,
            ;
            assert((1000 * sample_rate) * UNIT <= 1_000_000_000 * UNIT) by (nonlinear_arith)
                requires
                    1 <= sample_rate <= MAX_SAMPLE_RATE,
            ;
            assert(freq_millihz * UNIT <= (1000 * sample_rate) * UNIT ==> freq_millihz * UNIT / (
            1000 * (sample_rate as int)) <= UNIT) by (nonlinear_arith)
                requires
                    sample_rate >= 1,
                    0 <= freq_millihz * UNIT,
            ;
        }
        (freq_millihz * UNIT) / (1000 * sample_rate)
    }

    /// Change the frequency without resetting the phase, so the waveform
    /// stays continuous.
    pub fn set_freq(&mut self, freq_millihz: i64)
        requires
            old(self).wf(),
            0 <= freq_millihz <= 1000 * old(self).sample_rate,
        ensures
            final(self).wf(),
            *final(self) == old(self).spec_after_set_freq(freq_millihz),
            final(self).freq_millihz == freq_millihz,
            final(self).sample_rate == old(self).sample_rate,
            final(self).phase == old(self).phase,
    {
        self.freq_millihz = freq_millihz;
        self.phase_increment = Self::increment_for(freq_millihz, self.sample_rate);
    }

    /// Advance the phase by one sample and return the sine of the new
    /// phase, in `[-UNIT, UNIT]`.
    pub fn increment(&mut self) -> (r: i64)
        requires
            old(self).wf(),
        ensures
            final(self).wf(),
            *final(self) == (Oscillator { phase: old(self).spec_next_phase() as i64, ..*old(self) }),
            final(self).phase == old(self).spec_next_phase(),
            final(self).freq_millihz == old(self).freq_millihz,
            final(self).sample_rate == old(self).sample_rate,
            final(self).phase_increment == old(self).phase_increment,
            r == spec_sin_turns(final(self).phase as int),
            -UNIT <= r <= UNIT,
    {
        let mut p = self.phase + self.phase_increment;
        if p >= UNIT {
            p = p - UNIT;
        }
        self.phase = p;
        self.level()
    }

    /// The sine of the current phase, in `[-UNIT, UNIT]`.
    pub fn level(&self) -> (r: i64)
        requires
            self.wf(),
        ensures
            r == spec_sin_turns(self.phase as int),
            -UNIT <= r <= UNIT,
    {
        sin_turns(self.phase)
    }
}

} // verus!
