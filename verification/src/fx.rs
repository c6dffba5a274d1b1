//! Fixed-point units and the tunable constants of the dice tray.
//!
//! A real quantity `v` is carried as the integer `v * SCALE`, rounded.
//! All thresholds below are expressed in these units, so every comparison
//! the core makes is exact integer arithmetic.

use vstd::prelude::*;

verus! {

/// Fixed-point steps per world unit.
pub const SCALE: i64 = 1000;

/// `SCALE * SCALE`, the scale of a product of two fixed-point values.
pub const SCALE_SQ: i64 = 1000000;

/// A velocity magnitude below 0.1 world units per second counts as still.
/// This is `0.1 * SCALE`.
pub const VEL_EPS: i64 = 100;

/// `VEL_EPS * VEL_EPS`: stillness is tested on squared magnitudes.
pub const VEL_EPS_SQ: i64 = 10000;

/// A die locks once it has been still for more than this many ticks.
pub const LOCK_TICKS: u32 = 20;

/// A die farther than 100 world units from the origin has escaped the
/// play volume. This is `100 * SCALE`.
pub const ESCAPE_RADIUS: i64 = 100000;

/// `ESCAPE_RADIUS * ESCAPE_RADIUS`, for the squared-magnitude test.
pub const ESCAPE_RADIUS_SQ: i64 = 10000000000;

/// Height of the recovery point above the tray centre, in world units 30.
pub const RECOVERY_HEIGHT: i64 = 30000;

/// Largest coordinate magnitude the core accepts from the physics engine,
/// chosen so that a squared vector magnitude still fits in `i64`.
pub const COORD_MAX: i64 = 1000000000;

/// Edge length of a die cube, in world units 1.
pub const CUBE_SIZE: i64 = 1000;

/// Gap between spawned dice, in world units 2.
pub const CUBE_GAP: i64 = 2000;

/// Spacing factor of the spawn cluster: every drop offset, given in world
/// units, is scaled by `CUBE_SIZE + CUBE_GAP` (world units 3).
pub const SPAWN_STEP: i64 = CUBE_SIZE + CUBE_GAP;

/// Fixed-point height at which a fresh batch is dropped: a drop offset of
/// 15 world units, scaled like every other offset by the cluster factor.
pub const SPAWN_HEIGHT: i64 = 15 * SPAWN_STEP;

/// Number of dice in one roll.
pub const BATCH_SIZE: usize = 5;

/// Pi in fixed-point angle units (radians times [`SCALE`], rounded).
pub const PI_FX: i64 = 3142;

/// Pi/2 in fixed-point angle units; twice this is exactly [`PI_FX`].
pub const HALF_PI_FX: i64 = 1571;

/// Two pi in fixed-point angle units; angles live in `[0, TWO_PI_FX)`.
pub const TWO_PI_FX: i64 = 2 * PI_FX;

} // verus!
