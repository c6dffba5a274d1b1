//! Integer square root and fixed-point sine and cosine.
//!
//! The sine uses Bhaskara's rational approximation
//! `sin x ~= 16 x (pi - x) / (5 pi^2 - 4 x (pi - x))` on the half wave
//! `[0, pi]`, carried out exactly in fixed-point integers; the second
//! half wave is its negation and the cosine is the sine shifted a
//! quarter turn. The approximation is within about half a percent of
//! the true sine, ample for spawning dice in random orientations.

use vstd::prelude::*;
use vstd::arithmetic::div_mod::{
    lemma_div_by_multiple, lemma_div_is_ordered, lemma_div_pos_is_pos,
};
use crate::fx::{HALF_PI_FX, PI_FX, SCALE, TWO_PI_FX};

verus! {

/// Floor of the square root of `n`.
///
/// The bound on `n` covers every caller - a sum of three squares of
/// fixed-point components - and keeps the scan short.
pub fn isqrt(n: i64) -> (r: i64)
    requires
        0 <= n <= 3000000,
    ensures
        0 <= r,
        r * r <= n,
        (r + 1) * (r + 1) > n,
{
    let mut r: i64 = 0;
    loop
        invariant_except_break
            0 <= r <= 1800,
            r * r <= n,
            0 <= n <= 3000000,
        ensures
            0 <= r,
            r * r <= n,
            (r + 1) * (r + 1) > n,
        decreases 3000000 - r,
    {
        proof {
            assert((r + 1) * (r + 1) <= 3244401) by (nonlinear_arith)
                requires 0 <= r <= 1800;
        }
        let next = (r + 1) * (r + 1);
        if next > n {
            break;
        }
        proof {
            assert(r + 1 <= 1733) by (nonlinear_arith)
                requires (r + 1) * (r + 1) <= 3000000, r >= 0;
        }
        r = r + 1;
    }
    r
}

/// Bhaskara's approximation of `sin t` on the half wave, in fixed-point
/// units: exact integer arithmetic, rounded toward zero by the division.
pub open spec fn bhaskara(t: int) -> int {
    (16 * (t * (PI_FX - t)) * SCALE) / (5 * (PI_FX * PI_FX) - 4 * (t * (PI_FX - t)))
}

/// Fixed-point sine of an angle in `[0, TWO_PI_FX)`: the half-wave
/// approximation on `[0, PI_FX]`, its negation beyond.
pub open spec fn sin_spec(t: int) -> int {
    if t <= PI_FX {
        bhaskara(t)
    } else {
        -bhaskara(t - PI_FX)
    }
}

/// Fixed-point cosine: the sine shifted a quarter turn, wrapped into
/// the angle range.
pub open spec fn cos_spec(t: int) -> int {
    if t + HALF_PI_FX < TWO_PI_FX {
        sin_spec(t + HALF_PI_FX)
    } else {
        sin_spec(t + HALF_PI_FX - TWO_PI_FX)
    }
}

/// The half-wave approximation, computed exactly.
fn sin_half(t: i64) -> (r: i64)
    requires
        0 <= t <= PI_FX,
    ensures
        r == bhaskara(t as int),
        0 <= r <= SCALE,
{
    proof {
        assert(0 <= t * (PI_FX - t) && 4 * (t * (PI_FX - t)) <= PI_FX * PI_FX)
            by (nonlinear_arith)
            requires 0 <= t <= PI_FX;
    }
    let p = t * (PI_FX - t);
    let num = 16 * p * SCALE;
    let den = 5 * (PI_FX * PI_FX) - 4 * p;
    let r = num / den;
    proof {
        assert(num <= SCALE * den) by (nonlinear_arith)
            requires
                num == 16 * p * SCALE,
                den == 5 * (PI_FX * PI_FX) - 4 * p,
                4 * p <= PI_FX * PI_FX,
                0 <= p;
        lemma_div_pos_is_pos(num as int, den as int);
        lemma_div_is_ordered(num as int, SCALE * den, den as int);
        lemma_div_by_multiple(SCALE as int, den as int);
    }
    r
}

/// Fixed-point sine of an angle in `[0, TWO_PI_FX)`.
pub fn sin_fx(t: i64) -> (r: i64)
    requires
        0 <= t < TWO_PI_FX,
    ensures
        r == sin_spec(t as int),
        -SCALE <= r <= SCALE,
        t <= PI_FX ==> r >= 0,
{
    if t <= PI_FX {
        sin_half(t)
    } else {
        -sin_half(t - PI_FX)
    }
}

/// Fixed-point cosine of an angle in `[0, TWO_PI_FX)`.
pub fn cos_fx(t: i64) -> (r: i64)
    requires
        0 <= t < TWO_PI_FX,
    ensures
        r == cos_spec(t as int),
        -SCALE <= r <= SCALE,
{
    let s = t + HALF_PI_FX;
    if s < TWO_PI_FX {
        sin_fx(s)
    } else {
        sin_fx(s - TWO_PI_FX)
    }
}

} // verus!
