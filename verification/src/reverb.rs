//! A Schroeder-style reverb: parallel comb delays summed and averaged,
//! a serial all-pass chain, then an output gain.

use vstd::prelude::*;

verus! {

use crate::delay::Delay;
use crate::fixed::{UNIT, AMP_LIMIT, scale, clamp_amp, spec_scale, spec_clamp_amp};
use crate::oscillator::MAX_SAMPLE_RATE;

/// Sum of the comb responses to `x` over combs `0 .. n`.
pub open spec fn spec_comb_sum(combs: Seq<Delay>, x: int, n: int) -> int
    decreases n,
{
    if n <= 0 {
        0
    } else {
        spec_comb_sum(combs, x, n - 1) + combs[n - 1].spec_out(x)
    }
}

/// Truncating division of a possibly negative sum by the comb count.
pub open spec fn spec_div_count(sum: int, n: int) -> int {
    if sum >= 0 {
        sum / n
    } else {
        -((-sum) / n)
    }
}

/// The value entering all-pass stage `k` (stage outputs are clamped to
/// the amplitude range between stages).
pub open spec fn spec_ap_value(aps: Seq<Delay>, v0: int, k: int) -> int
    decreases k,
{
    if k <= 0 {
        v0
    } else {
        spec_clamp_amp(aps[k - 1].spec_out(spec_ap_value(aps, v0, k - 1)))
    }
}

pub struct Reverb {
    /// Parallel comb delay lines (full wet).
    pub combs: Vec<Delay>,
    /// Serial all-pass delay lines (full wet).
    pub allpasses: Vec<Delay>,
    /// Output gain, in `[0, UNIT]`.
    pub gain: i64,
}

impl Reverb {
    pub open spec fn wf(self) -> bool {
        &&& 1 <= self.combs.len() <= 16
        &&& self.allpasses.len() <= 16
        &&& 0 <= self.gain <= UNIT
        &&& forall|i: int| 0 <= i < self.combs.len() ==> (#[trigger] self.combs@[i]).wf()
        &&& forall|i: int| 0 <= i < self.allpasses.len() ==> (#[trigger] self.allpasses@[i]).wf()
    }

    /// Build a reverb from comb and all-pass delay times in milliseconds.
    pub fn new(
        sample_rate: i64,
        comb_delays_ms: &Vec<usize>,
        comb_fb: i64,
        allpass_delays_ms: &Vec<usize>,
        allpass_fb: i64,
        gain: i64,
    ) -> (r: Reverb)
        requires
            1000 <= sample_rate <= MAX_SAMPLE_RATE,
            1 <= comb_delays_ms.len() <= 16,
            allpass_delays_ms.len() <= 16,
            forall|i: int|
                0 <= i < comb_delays_ms.len() ==> 1 <= #[trigger] comb_delays_ms@[i] <= 60_000,
            forall|i: int|
                0 <= i < allpass_delays_ms.len() ==> 1 <= #[trigger] allpass_delays_ms@[i]
                    <= 60_000,
            0 <= comb_fb <= UNIT,
            0 <= allpass_fb <= UNIT,
            0 <= gain <= UNIT,
        ensures
            r.wf(),
            r.combs.len() == comb_delays_ms.len(),
            r.allpasses.len() == allpass_delays_ms.len(),
            r.gain == gain,
            forall|i: int|
                0 <= i < comb_delays_ms.len() ==> (#[trigger] r.combs@[i]).spec_length() == (
                sample_rate as int) * (comb_delays_ms@[i] as int) / 1000 && r.combs@[i].feedback
                    == comb_fb && r.combs@[i].wet == UNIT,
            forall|i: int|
                0 <= i < allpass_delays_ms.len() ==> (#[trigger] r.allpasses@[i]).spec_length()
                    == (sample_rate as int) * (allpass_delays_ms@[i] as int) / 1000
                    && r.allpasses@[i].feedback == allpass_fb && r.allpasses@[i].wet == UNIT,
    {
        let mut combs: Vec<Delay> = Vec::new();
        let mut i: usize = 0;
        while i < comb_delays_ms.len()
            invariant
                i <= comb_delays_ms.len(),
                combs.len() == i,
                1000 <= sample_rate <= MAX_SAMPLE_RATE,
                0 <= comb_fb <= UNIT,
                forall|j: int|
                    0 <= j < comb_delays_ms.len() ==> 1 <= #[trigger] comb_delays_ms@[j] <= 60_000,
                forall|j: int|
                    0 <= j < i ==> (#[trigger] combs@[j]).wf() && combs@[j].spec_length() == (
                    sample_rate as int) * (comb_delays_ms@[j] as int) / 1000 && combs@[j].feedback
                        == comb_fb && combs@[j].wet == UNIT,
            decreases comb_delays_ms.len() - i,
        {
            let ms = comb_delays_ms[i];
            proof {
                assert(1000 <= (sample_rate as int) * (ms as int) <= 60_000_000_000int)
                    by (nonlinear_arith)
                    requires
                        1000 <= sample_rate <= MAX_SAMPLE_RATE,
                        1 <= ms <= 60_000,
                ;
            }
            let samples: usize = ((sample_rate * (ms as i64)) / 1000) as usize;
            combs.push(Delay::new(samples, comb_fb, UNIT));
            i = i + 1;
        }
        let mut allpasses: Vec<Delay> = Vec::new();
        let mut k: usize = 0;
        while k < allpass_delays_ms.len()
            invariant
                k <= allpass_delays_ms.len(),
                allpasses.len() == k,
                1000 <= sample_rate <= MAX_SAMPLE_RATE,
                0 <= allpass_fb <= UNIT,
                forall|j: int|
                    0 <= j < allpass_delays_ms.len() ==> 1 <= #[trigger] allpass_delays_ms@[j]
                        <= 60_000,
                forall|j: int|
                    0 <= j < k ==> (#[trigger] allpasses@[j]).wf() && allpasses@[j].spec_length()
                        == (sample_rate as int) * (allpass_delays_ms@[j] as int) / 1000
                        && allpasses@[j].feedback == allpass_fb && allpasses@[j].wet == UNIT,
            decreases allpass_delays_ms.len() - k,
        {
            let ms = allpass_delays_ms[k];
            proof {
                assert(1000 <= (sample_rate as int) * (ms as int) <= 60_000_000_000int)
                    by (nonlinear_arith)
                    requires
                        1000 <= sample_rate <= MAX_SAMPLE_RATE,
                        1 <= ms <= 60_000,
                ;
            }
            let samples: usize = ((sample_rate * (ms as i64)) / 1000) as usize;
            allpasses.push(Delay::new(samples, allpass_fb, UNIT));
            k = k + 1;
        }
        Reverb { combs, allpasses, gain }
    }

    /// Feed one sample through the reverb: comb average, all-pass chain,
    /// gain.
    pub fn apply(&mut self, x: i64) -> (r: i64)
        requires
            old(self).wf(),
            -AMP_LIMIT <= x <= AMP_LIMIT,
        ensures
            final(self).wf(),
            final(self).gain == old(self).gain,
            final(self).combs.len() == old(self).combs.len(),
            final(self).allpasses.len() == old(self).allpasses.len(),
            forall|i: int|
                0 <= i < old(self).combs.len() ==> #[trigger] Delay::spec_stepped(
                    old(self).combs@[i],
                    final(self).combs@[i],
                    x as int,
                ),
            forall|k: int|
                0 <= k < old(self).allpasses.len() ==> #[trigger] Delay::spec_stepped(
                    old(self).allpasses@[k],
                    final(self).allpasses@[k],
                    spec_ap_value(
                        old(self).allpasses@,
                        spec_clamp_amp(
                            spec_div_count(
                                spec_comb_sum(old(self).combs@, x as int, old(self).combs.len() as int),
                                old(self).combs.len() as int,
                            ),
                        ),
                        k,
                    ),
                ),
            r == spec_scale(
                spec_ap_value(
                    old(self).allpasses@,
                    spec_clamp_amp(
                        spec_div_count(
                            spec_comb_sum(old(self).combs@, x as int, old(self).combs.len() as int),
                            old(self).combs.len() as int,
                        ),
                    ),
                    old(self).allpasses.len() as int,
                ),
                old(self).gain as int,
            ),
            -AMP_LIMIT <= r <= AMP_LIMIT,
    {
        let ghost pre = *self;
        let n = self.combs.len();
        let mut sum: i64 = 0;
        let mut i: usize = 0;
        while i < n
            invariant
                i <= n,
                n == self.combs.len(),
                n == pre.combs.len(),
                1 <= n <= 16,
                -AMP_LIMIT <= x <= AMP_LIMIT,
                *self == (Reverb { combs: self.combs, ..pre }),
                forall|j: int| 0 <= j < n ==> (#[trigger] self.combs@[j]).wf(),
                forall|j: int| i <= j < n ==> #[trigger] self.combs@[j] == pre.combs@[j],
                forall|j: int|
                    0 <= j < i ==> #[trigger] Delay::spec_stepped(
                        pre.combs@[j],
                        self.combs@[j],
                        x as int,
                    ),
                sum == spec_comb_sum(pre.combs@, x as int, i as int),
                -2_000_000_000 * (i as int) <= sum <= 2_000_000_000 * (i as int),
            decreases n - i,
        {
            let out = self.combs[i].apply(x);
            sum = sum + out;
            i = i + 1;
        }
        let mag: i64 = if sum >= 0 {
            sum
        } else {
            -sum
        };
        let q: i64 = mag / (n as i64);
        let norm: i64 = if sum >= 0 {
            q
        } else {
            -q
        };
        let mut v = clamp_amp(norm);
        let ghost v0 = v as int;
        let m = self.allpasses.len();
        let mut k: usize = 0;
        while k < m
            invariant
                k <= m,
                m == self.allpasses.len(),
                m == pre.allpasses.len(),
                m <= 16,
                *self == (Reverb { combs: self.combs, allpasses: self.allpasses, ..pre }),
                self.combs.len() == pre.combs.len(),
                forall|j: int| 0 <= j < self.combs.len() ==> (#[trigger] self.combs@[j]).wf(),
                forall|j: int|
                    0 <= j < self.combs.len() ==> #[trigger] Delay::spec_stepped(
                        pre.combs@[j],
                        self.combs@[j],
                        x as int,
                    ),
                forall|j: int| 0 <= j < m ==> (#[trigger] self.allpasses@[j]).wf(),
                forall|j: int| k <= j < m ==> #[trigger] self.allpasses@[j] == pre.allpasses@[j],
                forall|j: int|
                    0 <= j < k ==> #[trigger] Delay::spec_stepped(
                        pre.allpasses@[j],
                        self.allpasses@[j],
                        spec_ap_value(pre.allpasses@, v0, j),
                    ),
                v == spec_ap_value(pre.allpasses@, v0, k as int),
                -AMP_LIMIT <= v <= AMP_LIMIT,
            decreases m - k,
        {
            let out = self.allpasses[k].apply(v);
            v = clamp_amp(out);
            k = k + 1;
        }
        scale(v, self.gain)
    }
}

} // verus!
