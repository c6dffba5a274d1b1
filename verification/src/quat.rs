//! Fixed-point rotations and resolution of a resting die's face value.
//!
//! A die's orientation is a unit quaternion carried in fixed-point units.
//! The six canonical outward face normals of the cube are, in object space
//! and in enumeration order:
//!
//! | index | normal      | face value |
//! |-------|-------------|------------|
//! | 0     | (0, 0, -1)  | 1          |
//! | 1     | (1, 0, 0)   | 2          |
//! | 2     | (0, -1, 0)  | 3          |
//! | 3     | (0, 1, 0)   | 4          |
//! | 4     | (-1, 0, 0)  | 5          |
//! | 5     | (0, 0, 1)   | 6          |
//!
//! Rotating a normal by the quaternion and taking the world vertical (y)
//! component picks out one row of the rotation matrix, so each candidate's
//! height is an exact integer expression in the quaternion's components.
//! The face whose rotated normal points most nearly up wins; on an exact
//! tie the first-enumerated index wins (strict comparison).

use vstd::prelude::*;
use crate::fx::{SCALE, SCALE_SQ};

verus! {

/// A rotation as a fixed-point quaternion `x*i + y*j + z*k + w`,
/// each component scaled by [`SCALE`].
#[derive(Clone, Copy, Debug, PartialEq, Eq)]
pub struct QuatFx {
    pub x: i64,
    pub y: i64,
    pub z: i64,
    pub w: i64,
}

/// Both factors bounded by [`SCALE`] in magnitude bound their product
/// by [`SCALE_SQ`].
proof fn lemma_prod_bound(a: i64, b: i64)
    requires
        -SCALE <= a <= SCALE,
        -SCALE <= b <= SCALE,
    ensures
        -SCALE_SQ <= a * b <= SCALE_SQ,
{
    assert(-SCALE_SQ <= a * b <= SCALE_SQ) by (nonlinear_arith)
        requires
            -SCALE <= a <= SCALE,
            -SCALE <= b <= SCALE;
}

impl QuatFx {
    /// Every component within one fixed-point unit, as holds of any
    /// (approximately) unit quaternion.
    pub open spec fn in_range(self) -> bool {
        &&& -SCALE <= self.x <= SCALE
        &&& -SCALE <= self.y <= SCALE
        &&& -SCALE <= self.z <= SCALE
        &&& -SCALE <= self.w <= SCALE
    }

    /// The identity rotation.
    pub open spec fn identity_spec() -> QuatFx {
        QuatFx { x: 0, y: 0, z: 0, w: SCALE }
    }

    /// The identity rotation, as a value.
    pub fn identity() -> (r: QuatFx)
        ensures
            r == Self::identity_spec(),
    {
        QuatFx { x: 0, y: 0, z: 0, w: SCALE }
    }

    /// World vertical component of face normal `i` rotated by `self`,
    /// scaled by [`SCALE_SQ`]. Each case is the corresponding entry
    /// (up to sign) of the middle row of the rotation matrix.
    pub open spec fn side_up(self, i: int) -> int {
        if i == 0 {
            2 * (self.w * self.x - self.y * self.z)
        } else if i == 1 {
            2 * (self.x * self.y + self.w * self.z)
        } else if i == 2 {
            2 * (self.x * self.x + self.z * self.z) - SCALE_SQ
        } else if i == 3 {
            SCALE_SQ - 2 * (self.x * self.x + self.z * self.z)
        } else if i == 4 {
            -2 * (self.x * self.y + self.w * self.z)
        } else {
            2 * (self.y * self.z - self.w * self.x)
        }
    }

    /// Index of the highest face among indices `0..=i`, first index
    /// winning ties (the scan replaces only on a strictly greater height).
    pub open spec fn best_side_up_to(self, i: int) -> int
        decreases i,
    {
        if i <= 0 {
            0
        } else {
            let b = self.best_side_up_to(i - 1);
            if self.side_up(i) > self.side_up(b) {
                i
            } else {
                b
            }
        }
    }

    /// The face value shown by a die resting in orientation `self`.
    pub open spec fn face_of(self) -> int {
        self.best_side_up_to(5) + 1
    }

    /// Resolve the face value of a die at rest in orientation `self`.
    pub fn resolve(&self) -> (r: u32)
        requires
            self.in_range(),
        ensures
            1 <= r <= 6,
            r as int == self.face_of(),
    {
        proof {
            lemma_prod_bound(self.w, self.x);
            lemma_prod_bound(self.y, self.z);
            lemma_prod_bound(self.x, self.y);
            lemma_prod_bound(self.w, self.z);
            lemma_prod_bound(self.x, self.x);
            lemma_prod_bound(self.z, self.z);
        }
        let y0 = 2 * (self.w * self.x - self.y * self.z);
        let y1 = 2 * (self.x * self.y + self.w * self.z);
        let y2 = 2 * (self.x * self.x + self.z * self.z) - SCALE_SQ;
        let y3 = SCALE_SQ - 2 * (self.x * self.x + self.z * self.z);
        let y4 = -2 * (self.x * self.y + self.w * self.z);
        let y5 = 2 * (self.y * self.z - self.w * self.x);
        let mut best: usize = 0;
        let mut best_up = y0;
        assert(best == self.best_side_up_to(0) && best_up == self.side_up(0));
        if y1 > best_up {
            best = 1;
            best_up = y1;
        }
        assert(best == self.best_side_up_to(1) && best_up == self.side_up(best as int));
        if y2 > best_up {
            best = 2;
            best_up = y2;
        }
        assert(best == self.best_side_up_to(2) && best_up == self.side_up(best as int));
        if y3 > best_up {
            best = 3;
            best_up = y3;
        }
        assert(best == self.best_side_up_to(3) && best_up == self.side_up(best as int));
        if y4 > best_up {
            best = 4;
            best_up = y4;
        }
        assert(best == self.best_side_up_to(4) && best_up == self.side_up(best as int));
        if y5 > best_up {
            best = 5;
            best_up = y5;
        }
        assert(best == self.best_side_up_to(5) && best_up == self.side_up(best as int));
        (best + 1) as u32
    }
}

/// Helper for [`lemma_face_of_range`]: the scan up to index `i` picks an
/// index within `0..=i`.
proof fn lemma_best_side_range(q: QuatFx, i: int)
    requires
        0 <= i,
    ensures
        0 <= q.best_side_up_to(i) <= i,
    decreases i,
{
    if i > 0 {
        lemma_best_side_range(q, i - 1);
    }
}

/// The face value is always one of 1 through 6, for every orientation,
/// unit or not.
pub proof fn lemma_face_of_range(q: QuatFx)
    ensures
        1 <= q.face_of() <= 6,
{
    lemma_best_side_range(q, 5);
}

/// Face resolution is a pure function of the orientation alone: two dice
/// in the same orientation read the same face, however they got there.
pub proof fn lemma_face_of_deterministic(a: QuatFx, b: QuatFx)
    requires
        a == b,
    ensures
        a.face_of() == b.face_of(),
{
}

/// At the identity orientation the face with normal (0, 1, 0) - index 3,
/// value 4 - is the only one with a positive vertical component, so the
/// resolver returns 4.
pub proof fn lemma_identity_face()
    ensures
        QuatFx::identity_spec().face_of() == 4,
{
    let q = QuatFx::identity_spec();
    assert(q.side_up(0) == 0);
    assert(q.side_up(1) == 0);
    assert(q.side_up(2) == -SCALE_SQ);
    assert(q.side_up(3) == SCALE_SQ);
    assert(q.side_up(4) == 0);
    assert(q.side_up(5) == 0);
    assert(q.best_side_up_to(0) == 0);
    assert(q.best_side_up_to(1) == 0);
    assert(q.best_side_up_to(2) == 0);
    assert(q.best_side_up_to(3) == 3);
    assert(q.best_side_up_to(4) == 3);
    assert(q.best_side_up_to(5) == 3);
}

} // verus!
