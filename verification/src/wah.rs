//! A wah effect: a state-variable band-pass filter whose center
//! frequency an LFO sweeps between two corners.

use vstd::prelude::*;

verus! {

use crate::fixed::{UNIT, AMP_LIMIT, scale, clamp_amp, spec_scale, spec_clamp_amp, sin_turns,
    spec_sin_turns};
use crate::oscillator::{Oscillator, MAX_SAMPLE_RATE};

pub struct Wah {
    /// Sample rate in hertz.
    pub sample_rate: i64,
    /// LFO phase in fixed-point turns, in `[0, UNIT)`.
    pub lfo_phase: i64,
    /// LFO advance per sample in fixed-point turns.
    pub lfo_increment: i64,
    /// LFO frequency in milli-hertz.
    pub lfo_millihz: i64,
    /// Lowest center frequency in milli-hertz.
    pub min_f_millihz: i64,
    /// Highest center frequency in milli-hertz.
    pub max_f_millihz: i64,
    /// Resonance, in `[0, UNIT]`.
    pub q: i64,
    /// Low-pass state of the filter.
    pub low: i64,
    /// Band-pass state of the filter; also the output.
    pub band: i64,
}

impl Wah {
    pub open spec fn wf(self) -> bool {
        &&& 1000 <= self.sample_rate <= MAX_SAMPLE_RATE
        &&& 0 < self.min_f_millihz < self.max_f_millihz <= 1000 * self.sample_rate
        &&& 0 <= self.lfo_millihz <= 1000 * self.sample_rate
        &&& 0 <= self.q <= UNIT
        &&& 0 <= self.lfo_phase < UNIT
        &&& self.lfo_increment == Oscillator::spec_increment_for(
            self.lfo_millihz as int,
            self.sample_rate as int,
        )
        &&& 0 <= self.lfo_increment <= UNIT
        &&& -AMP_LIMIT <= self.low <= AMP_LIMIT
        &&& -AMP_LIMIT <= self.band <= AMP_LIMIT
    }

    /// The sweep position this sample, in `[0, UNIT]`: the LFO sine
    /// shifted up into a unipolar range.
    pub open spec fn spec_lfo(self) -> int {
        (spec_sin_turns(self.lfo_phase as int) + UNIT) / 2
    }

    /// The swept center frequency, between the two corners.
    pub open spec fn spec_fc(self) -> int {
        self.min_f_millihz + spec_scale(
            self.max_f_millihz - self.min_f_millihz,
            self.spec_lfo(),
        )
    }

    /// The filter coefficient: `2 sin(pi fc / sr)`, with the angle put on
    /// the turn scale of the sine approximation.
    pub open spec fn spec_f(self) -> int {
        2 * spec_sin_turns(self.spec_fc() * UNIT / (2000 * (self.sample_rate as int)))
    }

    /// The high-pass node this sample, clamped to the amplitude range.
    pub open spec fn spec_high(self, x: int) -> int {
        spec_clamp_amp(x - self.low - spec_scale(self.band as int, self.q as int))
    }

    /// The band-pass state after this sample (also the output).
    pub open spec fn spec_band_after(self, x: int) -> int {
        spec_clamp_amp(self.band + spec_scale(self.spec_high(x), self.spec_f()))
    }

    /// The low-pass state after this sample.
    pub open spec fn spec_low_after(self, x: int) -> int {
        spec_clamp_amp(self.low + spec_scale(self.spec_band_after(x), self.spec_f()))
    }

    /// The LFO phase after this sample, wrapped into `[0, UNIT)`.
    pub open spec fn spec_lfo_phase_after(self) -> int {
        if self.lfo_phase + self.lfo_increment < UNIT {
            self.lfo_phase + self.lfo_increment
        } else {
            self.lfo_phase + self.lfo_increment - UNIT
        }
    }

    pub fn new(
        sample_rate: i64,
        lfo_millihz: i64,
        min_f_millihz: i64,
        max_f_millihz: i64,
        q: i64,
    ) -> (w: Wah)
        requires
            1000 <= sample_rate <= MAX_SAMPLE_RATE,
            0 < min_f_millihz < max_f_millihz <= 1000 * sample_rate,
            0 <= lfo_millihz <= 1000 * sample_rate,
            0 <= q <= UNIT,
        ensures
            w.wf(),
            w.sample_rate == sample_rate,
            w.lfo_phase == 0,
            w.lfo_millihz == lfo_millihz,
            w.min_f_millihz == min_f_millihz,
            w.max_f_millihz == max_f_millihz,
            w.q == q,
            w.low == 0,
            w.band == 0,
    {
        let lfo = Oscillator::new(lfo_millihz, sample_rate);
        Wah {
            sample_rate,
            lfo_phase: 0,
            lfo_increment: lfo.phase_increment,
            lfo_millihz,
            min_f_millihz,
            max_f_millihz,
            q,
            low: 0,
            band: 0,
        }
    }

    /// Feed one sample through the filter and return the band-pass
    /// output.
    pub fn apply(&mut self, x: i64) -> (r: i64)
        requires
            old(self).wf(),
            -AMP_LIMIT <= x <= AMP_LIMIT,
        ensures
            final(self).wf(),
            *final(self) == (Wah {
                lfo_phase: old(self).spec_lfo_phase_after() as i64,
                low: old(self).spec_low_after(x as int) as i64,
                band: old(self).spec_band_after(x as int) as i64,
                ..*old(self)
            }),
            r == old(self).spec_band_after(x as int),
            -AMP_LIMIT <= r <= AMP_LIMIT,
    {
        let lfo_raw = sin_turns(self.lfo_phase);
        let lfo = (lfo_raw + UNIT) / 2;
        let mut p = self.lfo_phase + self.lfo_increment;
        if p >= UNIT {
            p = p - UNIT;
        }
        self.lfo_phase = p;
        let sweep = self.max_f_millihz - self.min_f_millihz;
        let fc = self.min_f_millihz + scale(sweep, lfo);
        proof {
            assert(0 <= fc * UNIT) by (nonlinear_arith)
                requires
                    fc >= 0,
            ;
            assert(fc * UNIT <= (1000 * self.sample_rate) * UNIT) by (nonlinear_arith)
                requires
                    0 <= fc <= 1000 * self.sample_rate,
            ;
            assert((1000 * self.sample_rate) * UNIT <= 1_000_000_000 * UNIT) by (nonlinear_arith)
                requires
                    1 <= self.sample_rate <= MAX_SAMPLE_RATE,
            ;
            assert(fc * UNIT <= (1000 * self.sample_rate) * UNIT ==> fc * UNIT / (2000 * (
            self.sample_rate as int)) <= UNIT / 2) by (nonlinear_arith)
                requires
                    self.sample_rate >= 1,
                    0 <= fc * UNIT,
            ;
        }
        let t = (fc * UNIT) / (2000 * self.sample_rate);
        let f = 2 * sin_turns(t);
        proof {
            assert(f >= 0) by {
                assert(t <= 500_000);
            }
        }
        let high = clamp_amp(x - self.low - scale(self.band, self.q));
        let band_new = clamp_amp(self.band + scale(high, f));
        self.band = band_new;
        let low_new = clamp_amp(self.low + scale(band_new, f));
        self.low = low_new;
        band_new
    }
}

} // verus!
