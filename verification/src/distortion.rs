//! Drive, soft clip and dry/wet mix.

use vstd::prelude::*;

verus! {

use crate::fixed::{
    UNIT,
    AMP_LIMIT,
    scale,
    spec_scale,
    spec_soft_clip,
    soft_clip,
    lemma_scale_zero,
    lemma_scale_unit,
    lemma_scale_convex,
};

#[derive(Clone, Copy)]
pub struct Distortion {
    /// Gain applied before clipping; `UNIT` (1.0) or more.
    pub drive: i64,
    /// How much of the clipped signal is mixed into the output, in
    /// `[0, UNIT]`; 0 leaves the input untouched.
    pub mix: i64,
}

impl Distortion {
    pub open spec fn wf(self) -> bool {
        &&& UNIT <= self.drive <= AMP_LIMIT
        &&& 0 <= self.mix <= UNIT
    }

    /// The driven input, hard-limited to full scale outside `[-1, 1]` and
    /// soft-clipped inside.
    pub open spec fn spec_clipped(self, x: int) -> int {
        let driven = spec_scale(x, self.drive as int);
        if driven > UNIT {
            UNIT as int
        } else if driven < -UNIT {
            -UNIT as int
        } else {
            spec_soft_clip(driven)
        }
    }

    /// The processed sample: input and clipped signal mixed by `mix`.
    pub open spec fn spec_process(self, x: int) -> int {
        spec_scale(x, UNIT - self.mix) + spec_scale(self.spec_clipped(x), self.mix as int)
    }

    pub fn new(drive: i64, mix: i64) -> (d: Distortion)
        requires
            UNIT <= drive <= AMP_LIMIT,
            0 <= mix <= UNIT,
        ensures
            d.drive == drive,
            d.mix == mix,
            d.wf(),
    {
        Distortion { drive, mix }
    }

    /// Process one sample.  With `mix == 0` this is the identity; inputs
    /// within full scale stay within full scale.
    pub fn process(&self, x: i64) -> (r: i64)
        requires
            self.wf(),
            -AMP_LIMIT <= x <= AMP_LIMIT,
        ensures
            r == self.spec_process(x as int),
            self.mix == 0 ==> r == x,
            -UNIT <= x <= UNIT ==> -UNIT <= r <= UNIT,
            -AMP_LIMIT - UNIT <= r <= AMP_LIMIT + UNIT,
    {
        let driven = scale(x, self.drive);
        let clipped = if driven > UNIT {
            UNIT
        } else if driven < -UNIT {
            -UNIT
        } else {
            soft_clip(driven)
        };
        let dry_part = scale(x, UNIT - self.mix);
        let wet_part = scale(clipped, self.mix);
        proof {
            if self.mix == 0 {
                lemma_scale_unit(x as int);
                lemma_scale_zero(clipped as int);
            }
            if -UNIT <= x <= UNIT {
                lemma_scale_convex(x as int, UNIT - self.mix);
                lemma_scale_convex(clipped as int, self.mix as int);
            }
        }
        dry_part + wet_part
    }

    /// Filter-style entry point: distortion is stateless, so this is
    /// exactly [`Distortion::process`].
    pub fn apply(&mut self, sample: i64) -> (r: i64)
        requires
            old(self).wf(),
            -AMP_LIMIT <= sample <= AMP_LIMIT,
        ensures
            *final(self) == *old(self),
            r == old(self).spec_process(sample as int),
    {
        self.process(sample)
    }
}

} // verus!
