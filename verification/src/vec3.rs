//! Three-component fixed-point vectors.

use vstd::prelude::*;
use crate::fx::COORD_MAX;

verus! {

/// A vector in fixed-point units (see [`crate::fx`]).
#[derive(Clone, Copy, Debug, PartialEq, Eq)]
pub struct Vec3Fx {
    pub x: i64,
    pub y: i64,
    pub z: i64,
}

impl Vec3Fx {
    /// Every component within the coordinate range the core accepts,
    /// so that the squared magnitude fits in `i64`.
    pub open spec fn in_range(self) -> bool {
        &&& -COORD_MAX <= self.x <= COORD_MAX
        &&& -COORD_MAX <= self.y <= COORD_MAX
        &&& -COORD_MAX <= self.z <= COORD_MAX
    }

    /// Squared magnitude, as an unbounded integer.
    pub open spec fn norm_sq(self) -> int {
        self.x * self.x + self.y * self.y + self.z * self.z
    }

    /// The zero vector.
    pub fn zero() -> (r: Vec3Fx)
        ensures
            r == (Vec3Fx { x: 0, y: 0, z: 0 }),
    {
        Vec3Fx { x: 0, y: 0, z: 0 }
    }

    /// Squared magnitude in fixed-point-squared units.
    pub fn mag_sq(&self) -> (r: i64)
        requires
            self.in_range(),
        ensures
            r == self.norm_sq(),
    {
        proof {
            assert(self.x * self.x <= COORD_MAX * COORD_MAX) by (nonlinear_arith)
                requires -COORD_MAX <= self.x <= COORD_MAX;
            assert(self.y * self.y <= COORD_MAX * COORD_MAX) by (nonlinear_arith)
                requires -COORD_MAX <= self.y <= COORD_MAX;
            assert(self.z * self.z <= COORD_MAX * COORD_MAX) by (nonlinear_arith)
                requires -COORD_MAX <= self.z <= COORD_MAX;
            assert(self.x * self.x >= 0) by (nonlinear_arith);
            assert(self.y * self.y >= 0) by (nonlinear_arith);
            assert(self.z * self.z >= 0) by (nonlinear_arith);
        }
        self.x * self.x + self.y * self.y + self.z * self.z
    }
}

} // verus!
