//! Fixed-point arithmetic for the audio engine.
//!
//! Samples, envelope levels and filter coefficients are carried as `i64`
//! values scaled by [`UNIT`]: the value `UNIT` stands for full scale 1.0.
//! Durations are carried as `i64` values scaled by [`TIME_UNIT`] (one
//! second).  All arithmetic is exact integer arithmetic with truncating
//! scaling, so every operation has a complete functional specification.

use vstd::prelude::*;

verus! {

/// Fixed-point scale of samples, levels and coefficients: 1.0 == `UNIT`.
pub const UNIT: i64 = 1_000_000;

/// Half of [`UNIT`]; 0.5 in fixed point.
pub const HALF_UNIT: i64 = 500_000;

/// Fixed-point scale of durations: one second == `TIME_UNIT`.
pub const TIME_UNIT: i64 = 1_000_000_000;

/// Largest amplitude the engine ever stores in a buffer or filter state:
/// 1000.0 in fixed point, far above the clipping level but bounded, so
/// that every product in the engine fits in an `i64`.
pub const AMP_LIMIT: i64 = 1_000_000_000;

/// Coarser grid used inside the soft-clip curve evaluation.
pub const KILO: i64 = 1_000;

/// Truncating fixed-point scaling `a * c / UNIT`, rounding towards zero.
pub open spec fn spec_scale(a: int, c: int) -> int {
    if a >= 0 {
        (a * c) / (UNIT as int)
    } else {
        -((-a * c) / (UNIT as int))
    }
}

/// Clamp `x` to the amplitude range `[-AMP_LIMIT, AMP_LIMIT]`.
pub open spec fn spec_clamp_amp(x: int) -> int {
    if x > AMP_LIMIT {
        AMP_LIMIT as int
    } else if x < -AMP_LIMIT {
        -AMP_LIMIT as int
    } else {
        x
    }
}

/// Scale the sample `a` by the nonnegative coefficient `c`.
///
/// A coefficient of `UNIT` is 1.0; coefficients above `UNIT` (up to
/// `AMP_LIMIT`, i.e. 1000.0) express gain.
pub fn scale(a: i64, c: i64) -> (r: i64)
    requires
        -AMP_LIMIT <= a <= AMP_LIMIT,
        0 <= c <= AMP_LIMIT,
    ensures
        r == spec_scale(a as int, c as int),
        c <= UNIT ==> -AMP_LIMIT <= r <= AMP_LIMIT,
        c <= 2 * UNIT ==> -2 * AMP_LIMIT <= r <= 2 * AMP_LIMIT,
        c <= UNIT && a >= 0 ==> r <= a,
        c <= UNIT && a <= 0 ==> r >= a,
        a >= 0 ==> r >= 0,
        a <= 0 ==> r <= 0,
{
    let mag: i64 = if a >= 0 { a } else { -a };
    proof {
        assert(0 <= mag * c <= AMP_LIMIT * AMP_LIMIT) by (nonlinear_arith)
            requires
                0 <= mag <= AMP_LIMIT,
                0 <= c <= AMP_LIMIT,
        ;
        assert(c <= UNIT ==> mag * c <= mag * UNIT) by (nonlinear_arith)
            requires
                0 <= mag,
        ;
        assert(c <= 2 * UNIT ==> mag * c <= AMP_LIMIT * (2 * UNIT)) by (nonlinear_arith)
            requires
                0 <= mag <= AMP_LIMIT,
                0 <= c,
        ;
    }
    let p: i64 = mag * c;
    let q: i64 = p / UNIT;
    if a >= 0 {
        q
    } else {
        -q
    }
}

/// Scaling by a zero coefficient yields silence.
pub proof fn lemma_scale_zero(a: int)
    ensures
        spec_scale(a, 0) == 0,
{
    assert(a * 0 == 0) by (nonlinear_arith);
    assert(-a * 0 == 0) by (nonlinear_arith);
}

/// Scaling by `UNIT` (1.0) is the identity.
pub proof fn lemma_scale_unit(a: int)
    ensures
        spec_scale(a, UNIT as int) == a,
{
    assert(a >= 0 ==> a * UNIT / (UNIT as int) == a) by (nonlinear_arith);
    assert(a < 0 ==> -a * UNIT / (UNIT as int) == -a) by (nonlinear_arith);
}

/// Scaling a full-scale sample by a coefficient of at most `UNIT` keeps it
/// within the coefficient: a convex mix never grows past its weights.
pub proof fn lemma_scale_convex(a: int, c: int)
    requires
        -UNIT <= a <= UNIT,
        0 <= c <= UNIT,
    ensures
        -c <= spec_scale(a, c) <= c,
{
    assert(a >= 0 ==> 0 <= a * c <= UNIT * c) by (nonlinear_arith)
        requires
            a <= UNIT,
            0 <= c,
    ;
    assert(a < 0 ==> 0 <= -a * c <= UNIT * c) by (nonlinear_arith)
        requires
            -UNIT <= a,
            0 <= c,
    ;
    assert(forall|p: int| 0 <= p <= UNIT * c ==> 0 <= #[trigger] (p / (UNIT as int)) <= c)
        by (nonlinear_arith)
        requires
            0 <= c,
    ;
}

/// Clamp `x` to the amplitude range the engine stores.
pub fn clamp_amp(x: i64) -> (r: i64)
    ensures
        r == spec_clamp_amp(x as int),
        -AMP_LIMIT <= r <= AMP_LIMIT,
{
    if x > AMP_LIMIT {
        AMP_LIMIT
    } else if x < -AMP_LIMIT {
        -AMP_LIMIT
    } else {
        x
    }
}

/// Piecewise-parabolic sine over one turn: `t` in `[0, UNIT)` stands for
/// the angle `2 * pi * t / UNIT`, the result for `sin` of it in fixed point.
///
/// The first half turn is the parabola `16 t (1/2 - t)` (exact at 0, 1/4
/// and 1/2 of a turn, within 6 % elsewhere); the second half turn is its
/// mirror image.
pub open spec fn spec_sin_turns(t: int) -> int {
    if t <= HALF_UNIT {
        16 * t * (HALF_UNIT - t) / (UNIT as int)
    } else {
        -(16 * (t - HALF_UNIT) * (UNIT - t) / (UNIT as int))
    }
}

/// The parabola value `16 a (HALF_UNIT - a)` is within `[0, UNIT * UNIT]`
/// for `a` in `[0, HALF_UNIT]`.
proof fn lemma_parabola_bounds(a: int)
    by (nonlinear_arith)
    requires
        0 <= a <= HALF_UNIT,
    ensures
        0 <= 16 * a * (HALF_UNIT - a) <= UNIT * UNIT,
{
}

/// Evaluate the engine's sine approximation at `t` turns (fixed point).
pub fn sin_turns(t: i64) -> (r: i64)
    requires
        0 <= t < UNIT,
    ensures
        r == spec_sin_turns(t as int),
        -UNIT <= r <= UNIT,
        t <= HALF_UNIT ==> r >= 0,
        t > HALF_UNIT ==> r <= 0,
{
    if t <= HALF_UNIT {
        proof {
            lemma_parabola_bounds(t as int);
        }
        let p: i64 = 16 * t * (HALF_UNIT - t);
        p / UNIT
    } else {
        proof {
            lemma_parabola_bounds((UNIT - t) as int);
            assert(16 * ((UNIT - t) as int) * (HALF_UNIT - (UNIT - t)) == 16 * ((t - HALF_UNIT)
                as int) * (UNIT - t)) by (nonlinear_arith);
        }
        let p: i64 = 16 * (t - HALF_UNIT) * (UNIT - t);
        -(p / UNIT)
    }
}

/// Rational soft-clip curve on the coarse grid: for `w` in `[-KILO, KILO]`
/// (1.0 == `KILO`), the odd rational function `w (27 K^2 + w^2) / (27 K^2 +
/// 9 w^2)`, a close approximation of the hyperbolic tangent on `[-1, 1]`.
pub open spec fn spec_soft_curve(w: int) -> int {
    if w >= 0 {
        w * (27 * KILO * KILO + w * w) / (27 * KILO * KILO + 9 * (w * w))
    } else {
        -(-w * (27 * KILO * KILO + w * w) / (27 * KILO * KILO + 9 * (w * w)))
    }
}

/// The soft-clip numerator stays below `KILO` times the denominator on the
/// grid, so the curve never leaves `[-KILO, KILO]`.
proof fn lemma_soft_curve_bounds(m: int)
    by (nonlinear_arith)
    requires
        0 <= m <= KILO,
    ensures
        0 <= m * (27 * KILO * KILO + m * m),
        m * (27 * KILO * KILO + m * m) <= KILO * (27 * KILO * KILO + 9 * (m * m)),
{
}

/// Soft clip of a full-scale sample: `v` in `[-UNIT, UNIT]` is mapped
/// through [`spec_soft_curve`] on the coarse grid and scaled back, staying
/// within `[-UNIT, UNIT]`.
pub open spec fn spec_soft_clip(v: int) -> int {
    if v >= 0 {
        spec_soft_curve(v / (KILO as int)) * KILO
    } else {
        -spec_soft_curve(-v / (KILO as int)) * KILO
    }
}

/// Evaluate the soft-clip curve at the full-scale sample `v`.
pub fn soft_clip(v: i64) -> (r: i64)
    requires
        -UNIT <= v <= UNIT,
    ensures
        r == spec_soft_clip(v as int),
        -UNIT <= r <= UNIT,
{
    let mag: i64 = if v >= 0 { v } else { -v };
    let w: i64 = mag / KILO;
    proof {
        assert(0 <= (mag as int) / (KILO as int) <= KILO) by (nonlinear_arith)
            requires
                0 <= mag <= UNIT,
                UNIT == KILO * KILO,
        ;
        assert(0 <= w <= KILO);
        assert(0 <= w * w <= KILO * KILO) by (nonlinear_arith)
            requires
                0 <= w <= KILO,
        ;
        lemma_soft_curve_bounds(w as int);
        assert(0 <= w * (27 * KILO * KILO + w * w) <= KILO * (36 * (KILO * KILO)))
            by (nonlinear_arith)
            requires
                0 <= w <= KILO,
        ;
        assert(w * (27 * KILO * KILO + w * w) <= KILO * (27 * KILO * KILO + 9 * (w * w)) ==> w * (
        27 * KILO * KILO + w * w) / (27 * KILO * KILO + 9 * (w * w)) <= KILO) by (nonlinear_arith)
            requires
                0 <= w,
        ;
    }
    let num: i64 = w * (27 * KILO * KILO + w * w);
    let den: i64 = 27 * KILO * KILO + 9 * (w * w);
    let q: i64 = num / den;
    if v >= 0 {
        q * KILO
    } else {
        -(q * KILO)
    }
}

} // verus!
