//! Uniformly random spawn orientations.
//!
//! A pose is built the classical way: a random axis - three independent
//! uniform samples, normalized - and a rotation angle drawn uniformly
//! from `[0, 2 pi)`, combined by the axis-angle construction. The one
//! degenerate case, all three axis samples exactly zero, falls back to
//! the vertical axis instead of normalizing a zero vector.
//!
//! Randomness enters only through [`random_word`]; everything built on
//! top of the raw words is deterministic and verified, so tests can
//! drive the same construction with samples of their choosing.

use vstd::prelude::*;
use vstd::arithmetic::div_mod::{
    lemma_div_by_multiple, lemma_div_is_ordered, lemma_div_pos_is_pos,
};
use crate::fx::{BATCH_SIZE, SCALE, TWO_PI_FX};
use crate::quat::QuatFx;
use crate::trig::{cos_fx, cos_spec, isqrt, sin_fx, sin_spec};
use crate::vec3::Vec3Fx;

verus! {

/// Relies on `rand::random`: one machine word from the thread-local
/// generator, uniformly distributed. Nothing is promised of its value.
#[verifier::external_body]
fn random_word() -> u32 {
    rand::random::<u32>()
}

/// One axis sample folded into the fixed-point range `[0, SCALE]`.
pub open spec fn axis_raw(r: u32) -> int {
    (r as int) % ((SCALE + 1) as int)
}

/// Squared length of the raw (unnormalized) axis sample vector.
pub open spec fn axis_norm_sq(r0: u32, r1: u32, r2: u32) -> int {
    axis_raw(r0) * axis_raw(r0) + axis_raw(r1) * axis_raw(r1) + axis_raw(r2) * axis_raw(r2)
}

/// All three raw axis samples are exactly zero: the degenerate case.
pub open spec fn axis_degenerate(r0: u32, r1: u32, r2: u32) -> bool {
    axis_raw(r0) == 0 && axis_raw(r1) == 0 && axis_raw(r2) == 0
}

/// `0 <= c <= bound` and `0 <= d <= bound` bound the product by
/// `bound * bound`.
proof fn lemma_sq_bound(c: int, d: int, bound: int)
    requires
        0 <= c <= bound,
        0 <= d <= bound,
    ensures
        0 <= c * d <= bound * bound,
{
    assert(0 <= c * d <= bound * bound) by (nonlinear_arith)
        requires 0 <= c <= bound, 0 <= d <= bound;
}

/// A unit axis from three raw uniform samples: each is folded into
/// `[0, SCALE]` and the vector is normalized to fixed-point length one.
/// If all three folded samples are zero the vertical axis is returned
/// instead of normalizing a zero vector.
pub fn sample_axis(r0: u32, r1: u32, r2: u32) -> (a: Vec3Fx)
    ensures
        0 <= a.x <= SCALE,
        0 <= a.y <= SCALE,
        0 <= a.z <= SCALE,
        axis_degenerate(r0, r1, r2) ==> a == (Vec3Fx { x: 0, y: SCALE, z: 0 }),
        !axis_degenerate(r0, r1, r2) ==> exists|n: int|
            1 <= n && #[trigger] (n * n) <= axis_norm_sq(r0, r1, r2)
                && (n + 1) * (n + 1) > axis_norm_sq(r0, r1, r2)
                && a.x == axis_raw(r0) * SCALE / n
                && a.y == axis_raw(r1) * SCALE / n
                && a.z == axis_raw(r2) * SCALE / n,
{
    let m = (SCALE as u32) + 1;
    let c0 = (r0 % m) as i64;
    let c1 = (r1 % m) as i64;
    let c2 = (r2 % m) as i64;
    if c0 == 0 && c1 == 0 && c2 == 0 {
        return Vec3Fx { x: 0, y: SCALE, z: 0 };
    }
    proof {
        lemma_sq_bound(c0 as int, c0 as int, SCALE as int);
        lemma_sq_bound(c1 as int, c1 as int, SCALE as int);
        lemma_sq_bound(c2 as int, c2 as int, SCALE as int);
        if c0 > 0 {
            assert(1 <= c0 * c0) by (nonlinear_arith) requires c0 >= 1;
        } else if c1 > 0 {
            assert(1 <= c1 * c1) by (nonlinear_arith) requires c1 >= 1;
        } else {
            assert(1 <= c2 * c2) by (nonlinear_arith) requires c2 >= 1;
        }
    }
    let s = c0 * c0 + c1 * c1 + c2 * c2;
    let n = isqrt(s);
    proof {
        assert(s >= 1);
        assert(n >= 1) by (nonlinear_arith)
            requires (n + 1) * (n + 1) > s, s >= 1, n >= 0;
        assert(c0 <= n) by (nonlinear_arith)
            requires c0 >= 0, n >= 0, c0 * c0 <= s, (n + 1) * (n + 1) > s;
        assert(c1 <= n) by (nonlinear_arith)
            requires c1 >= 0, n >= 0, c1 * c1 <= s, (n + 1) * (n + 1) > s;
        assert(c2 <= n) by (nonlinear_arith)
            requires c2 >= 0, n >= 0, c2 * c2 <= s, (n + 1) * (n + 1) > s;
        assert(c0 * SCALE <= n * SCALE) by (nonlinear_arith)
            requires c0 <= n, SCALE > 0;
        assert(c1 * SCALE <= n * SCALE) by (nonlinear_arith)
            requires c1 <= n, SCALE > 0;
        assert(c2 * SCALE <= n * SCALE) by (nonlinear_arith)
            requires c2 <= n, SCALE > 0;
        lemma_div_pos_is_pos(c0 * SCALE, n as int);
        lemma_div_pos_is_pos(c1 * SCALE, n as int);
        lemma_div_pos_is_pos(c2 * SCALE, n as int);
        lemma_div_is_ordered(c0 * SCALE, n * SCALE, n as int);
        lemma_div_is_ordered(c1 * SCALE, n * SCALE, n as int);
        lemma_div_is_ordered(c2 * SCALE, n * SCALE, n as int);
        lemma_div_by_multiple(SCALE as int, n as int);
    }
    let x = c0 * SCALE / n;
    let y = c1 * SCALE / n;
    let z = c2 * SCALE / n;
    let a = Vec3Fx { x, y, z };
    proof {
        assert(1 <= (n as int) && (n as int) * (n as int) <= axis_norm_sq(r0, r1, r2)
            && ((n as int) + 1) * ((n as int) + 1) > axis_norm_sq(r0, r1, r2)
            && a.x == axis_raw(r0) * SCALE / (n as int)
            && a.y == axis_raw(r1) * SCALE / (n as int)
            && a.z == axis_raw(r2) * SCALE / (n as int));
    }
    a
}

/// A rotation angle folded uniformly into `[0, 2 pi)` fixed-point units.
pub fn sample_angle(r: u32) -> (a: i64)
    ensures
        a == (r as int) % (TWO_PI_FX as int),
        0 <= a < TWO_PI_FX,
{
    (r % (TWO_PI_FX as u32)) as i64
}

/// The axis-angle construction: the quaternion whose vector part is the
/// axis scaled by the sine of the half angle and whose scalar part is
/// the cosine of the half angle, all in fixed-point units.
pub fn pose_from_axis_angle(axis: Vec3Fx, angle: i64) -> (q: QuatFx)
    requires
        0 <= axis.x <= SCALE,
        0 <= axis.y <= SCALE,
        0 <= axis.z <= SCALE,
        0 <= angle < TWO_PI_FX,
    ensures
        q.in_range(),
        q.x == axis.x * sin_spec(angle as int / 2) / (SCALE as int),
        q.y == axis.y * sin_spec(angle as int / 2) / (SCALE as int),
        q.z == axis.z * sin_spec(angle as int / 2) / (SCALE as int),
        q.w == cos_spec(angle as int / 2),
{
    proof {
        lemma_div_pos_is_pos(angle as int, 2);
        lemma_div_is_ordered(angle as int, TWO_PI_FX - 1, 2);
    }
    let h = angle / 2;
    let s = sin_fx(h);
    let c = cos_fx(h);
    proof {
        lemma_sq_bound(axis.x as int, s as int, SCALE as int);
        lemma_sq_bound(axis.y as int, s as int, SCALE as int);
        lemma_sq_bound(axis.z as int, s as int, SCALE as int);
        lemma_div_pos_is_pos(axis.x * s, SCALE as int);
        lemma_div_pos_is_pos(axis.y * s, SCALE as int);
        lemma_div_pos_is_pos(axis.z * s, SCALE as int);
        lemma_div_is_ordered(axis.x * s, SCALE * SCALE, SCALE as int);
        lemma_div_is_ordered(axis.y * s, SCALE * SCALE, SCALE as int);
        lemma_div_is_ordered(axis.z * s, SCALE * SCALE, SCALE as int);
        lemma_div_by_multiple(SCALE as int, SCALE as int);
    }
    let x = axis.x * s / SCALE;
    let y = axis.y * s / SCALE;
    let z = axis.z * s / SCALE;
    QuatFx { x, y, z, w: c }
}

/// A fresh random pose for one spawned die.
pub fn random_pose() -> (q: QuatFx)
    ensures
        q.in_range(),
{
    let axis = sample_axis(random_word(), random_word(), random_word());
    let angle = sample_angle(random_word());
    pose_from_axis_angle(axis, angle)
}

/// One random pose for each die of a batch.
pub fn random_pose_batch() -> (poses: Vec<QuatFx>)
    ensures
        poses.len() == BATCH_SIZE,
        forall|i: int| 0 <= i < BATCH_SIZE ==> (#[trigger] poses[i]).in_range(),
{
    let mut poses: Vec<QuatFx> = Vec::new();
    let mut k: usize = 0;
    while k < BATCH_SIZE
        invariant
            k <= BATCH_SIZE,
            poses.len() == k,
            forall|i: int| 0 <= i < k ==> (#[trigger] poses[i]).in_range(),
        decreases BATCH_SIZE - k,
    {
        poses.push(random_pose());
        k = k + 1;
    }
    poses
}

} // verus!
