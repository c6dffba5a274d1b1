//! One simulated die: its physical state, the settle tracker that locks it
//! exactly once, and the bounds guard that recovers it when it escapes the
//! play volume.

use vstd::prelude::*;
use crate::fx::{
    BATCH_SIZE, ESCAPE_RADIUS_SQ, LOCK_TICKS, RECOVERY_HEIGHT, SPAWN_HEIGHT, SPAWN_STEP,
    VEL_EPS_SQ,
};
use crate::quat::QuatFx;
use crate::quat::lemma_face_of_range;
use crate::vec3::Vec3Fx;

verus! {

/// How the external physics engine treats a body: integrated each tick,
/// or frozen in place.
#[derive(Clone, Copy, Debug, PartialEq, Eq)]
pub enum BodyMode {
    Dynamic,
    Static,
}

/// Both velocity magnitudes strictly below the stillness threshold,
/// tested on exact squared magnitudes.
pub open spec fn is_still(lin: Vec3Fx, ang: Vec3Fx) -> bool {
    lin.norm_sq() < VEL_EPS_SQ && ang.norm_sq() < VEL_EPS_SQ
}

/// One physical cube under simulation.
#[derive(Clone, Copy, Debug, PartialEq, Eq)]
pub struct Die {
    /// Slot of this die within its batch.
    pub id: usize,
    /// Centre of the die, fixed-point world coordinates.
    pub position: Vec3Fx,
    /// World orientation, a fixed-point unit quaternion.
    pub orientation: QuatFx,
    pub linear_velocity: Vec3Fx,
    pub angular_velocity: Vec3Fx,
    /// Dynamic while tumbling; set to Static exactly once, at lock.
    pub body_mode: BodyMode,
    /// Consecutive still ticks seen so far; reset by any motion.
    pub settle_timer: u32,
    /// Becomes true exactly once per die lifetime.
    pub locked: bool,
    /// The resolved face, defined once `locked` and immutable thereafter.
    pub face_value: Option<u32>,
}

impl Die {
    /// Internal invariant: physical state in range, the timer within its
    /// band, and the lock, body mode and face value consistent with one
    /// another.
    pub open spec fn wf(self) -> bool {
        &&& self.position.in_range()
        &&& self.linear_velocity.in_range()
        &&& self.angular_velocity.in_range()
        &&& self.orientation.in_range()
        &&& self.settle_timer <= LOCK_TICKS
        &&& (self.locked <==> self.face_value is Some)
        &&& (self.locked ==> self.body_mode == BodyMode::Static && self.settle_timer == 0)
        &&& (!self.locked ==> self.body_mode == BodyMode::Dynamic)
        &&& (self.face_value matches Some(v) ==> v as int == self.orientation.face_of())
    }

    /// Velocities currently below the stillness threshold.
    pub open spec fn still_now(self) -> bool {
        is_still(self.linear_velocity, self.angular_velocity)
    }

    /// Where die `id` of a fresh batch is dropped: five fixed offsets in a
    /// compact cluster, all raised to the drop height.
    pub open spec fn spawn_pos(id: int) -> Vec3Fx {
        if id == 0 {
            Vec3Fx { x: 0, y: SPAWN_HEIGHT, z: 0 }
        } else if id == 1 {
            Vec3Fx { x: SPAWN_STEP, y: SPAWN_HEIGHT, z: SPAWN_STEP }
        } else if id == 2 {
            Vec3Fx { x: SPAWN_STEP, y: SPAWN_HEIGHT, z: (-SPAWN_STEP) as i64 }
        } else if id == 3 {
            Vec3Fx { x: (-SPAWN_STEP) as i64, y: SPAWN_HEIGHT, z: SPAWN_STEP }
        } else {
            Vec3Fx { x: (-SPAWN_STEP) as i64, y: SPAWN_HEIGHT, z: (-SPAWN_STEP) as i64 }
        }
    }

    /// A freshly spawned die: dynamic, unlocked, timer zero, no face, at
    /// its drop position, with the pose the sampler chose and no velocity.
    pub open spec fn spawn_spec(id: usize, pose: QuatFx) -> Die {
        Die {
            id,
            position: Self::spawn_pos(id as int),
            orientation: pose,
            linear_velocity: Vec3Fx { x: 0, y: 0, z: 0 },
            angular_velocity: Vec3Fx { x: 0, y: 0, z: 0 },
            body_mode: BodyMode::Dynamic,
            settle_timer: 0,
            locked: false,
            face_value: None,
        }
    }

    /// Spawn die `id` of a batch with the given pose.
    pub fn spawn(id: usize, pose: QuatFx) -> (d: Die)
        requires
            id < BATCH_SIZE,
            pose.in_range(),
        ensures
            d == Self::spawn_spec(id, pose),
            d.wf(),
    {
        let position = if id == 0 {
            Vec3Fx { x: 0, y: SPAWN_HEIGHT, z: 0 }
        } else if id == 1 {
            Vec3Fx { x: SPAWN_STEP, y: SPAWN_HEIGHT, z: SPAWN_STEP }
        } else if id == 2 {
            Vec3Fx { x: SPAWN_STEP, y: SPAWN_HEIGHT, z: -SPAWN_STEP }
        } else if id == 3 {
            Vec3Fx { x: -SPAWN_STEP, y: SPAWN_HEIGHT, z: SPAWN_STEP }
        } else {
            Vec3Fx { x: -SPAWN_STEP, y: SPAWN_HEIGHT, z: -SPAWN_STEP }
        };
        Die {
            id,
            position,
            orientation: pose,
            linear_velocity: Vec3Fx::zero(),
            angular_velocity: Vec3Fx::zero(),
            body_mode: BodyMode::Dynamic,
            settle_timer: 0,
            locked: false,
            face_value: None,
        }
    }

    /// The settle tracker's transition for one tick of an unlocked die:
    /// a still tick raises the counter, any motion resets it, and a counter
    /// beyond [`LOCK_TICKS`] locks the die - freezing its body, fixing its
    /// face from its current orientation, and retiring the counter.
    pub open spec fn settle_spec(self) -> Die {
        let t = if self.still_now() {
            (self.settle_timer + 1) as u32
        } else {
            0u32
        };
        if t > LOCK_TICKS {
            Die {
                body_mode: BodyMode::Static,
                settle_timer: 0,
                locked: true,
                face_value: Some(self.orientation.face_of() as u32),
                ..self
            }
        } else {
            Die { settle_timer: t, ..self }
        }
    }

    /// Run the settle tracker for one tick. Only unlocked dice are
    /// processed; the lock transition happens at most once per lifetime.
    pub fn settle_step(&mut self)
        requires
            old(self).wf(),
            !old(self).locked,
        ensures
            *final(self) == old(self).settle_spec(),
            final(self).wf(),
    {
        let lin_sq = self.linear_velocity.mag_sq();
        let ang_sq = self.angular_velocity.mag_sq();
        if lin_sq < VEL_EPS_SQ && ang_sq < VEL_EPS_SQ {
            self.settle_timer = self.settle_timer + 1;
        } else {
            self.settle_timer = 0;
        }
        if self.settle_timer > LOCK_TICKS {
            self.body_mode = BodyMode::Static;
            self.face_value = Some(self.orientation.resolve());
            self.settle_timer = 0;
            self.locked = true;
        }
    }

    /// The die's centre lies outside the spherical play volume.
    pub open spec fn escaped(self) -> bool {
        self.position.norm_sq() > ESCAPE_RADIUS_SQ
    }

    /// The bounds guard's transition: an escaped die is teleported to the
    /// recovery point above the tray centre with both velocities zeroed;
    /// any other die is left alone. Lock state is never touched.
    pub open spec fn bounds_spec(self) -> Die {
        if self.escaped() {
            Die {
                position: Vec3Fx { x: 0, y: RECOVERY_HEIGHT, z: 0 },
                linear_velocity: Vec3Fx { x: 0, y: 0, z: 0 },
                angular_velocity: Vec3Fx { x: 0, y: 0, z: 0 },
                ..self
            }
        } else {
            self
        }
    }

    /// Recover this die if it has escaped the play volume. Runs every tick
    /// for every die, locked or not.
    pub fn bounds_guard(&mut self)
        requires
            old(self).wf(),
        ensures
            *final(self) == old(self).bounds_spec(),
            final(self).wf(),
    {
        let r_sq = self.position.mag_sq();
        if r_sq > ESCAPE_RADIUS_SQ {
            self.position = Vec3Fx { x: 0, y: RECOVERY_HEIGHT, z: 0 };
            self.linear_velocity = Vec3Fx::zero();
            self.angular_velocity = Vec3Fx::zero();
        }
    }

    /// What one full tick does to one die of the session: the settle
    /// tracker runs on unlocked dice only, then the bounds guard runs
    /// unconditionally.
    pub open spec fn tick_spec(self) -> Die {
        let settled = if self.locked {
            self
        } else {
            self.settle_spec()
        };
        settled.bounds_spec()
    }
}

/// The settle phase of [`Die::tick_spec`] alone: what the settle tracker
/// leaves of a die when the bounds guard has nothing to correct.
pub open spec fn settle_tick(d: Die) -> Die {
    if d.locked {
        d
    } else {
        d.settle_spec()
    }
}

/// `d` after `n` ticks of the settle tracker during which the physics
/// engine reports it still (the tracker itself never changes velocities,
/// so stillness persists across the run).
pub open spec fn still_run(d: Die, n: nat) -> Die
    decreases n,
{
    if n == 0 {
        d
    } else {
        settle_tick(still_run(d, (n - 1) as nat))
    }
}

/// While the lock threshold is not yet reached, each still tick raises the
/// counter by exactly one and changes nothing else about the die.
pub proof fn lemma_still_run_counts(d: Die, n: nat)
    requires
        d.wf(),
        !d.locked,
        d.still_now(),
        d.settle_timer + n <= LOCK_TICKS,
    ensures
        still_run(d, n).wf(),
        !still_run(d, n).locked,
        still_run(d, n).settle_timer == d.settle_timer + n,
        still_run(d, n).linear_velocity == d.linear_velocity,
        still_run(d, n).angular_velocity == d.angular_velocity,
        still_run(d, n).orientation == d.orientation,
        still_run(d, n).position == d.position,
        still_run(d, n).body_mode == d.body_mode,
        still_run(d, n).face_value == d.face_value,
    decreases n,
{
    if n > 0 {
        lemma_still_run_counts(d, (n - 1) as nat);
    }
}

/// A locked die is inert under the settle tracker: the session skips it,
/// so the lock and the face value are final.
pub proof fn lemma_locked_inert(d: Die)
    requires
        d.locked,
    ensures
        settle_tick(d) == d,
{
}

/// A die that stays still from a zeroed counter locks on exactly the
/// 21st still tick: after [`LOCK_TICKS`] ticks it is not yet locked, one
/// tick later it is locked, its body is Static, and its face value is the
/// one its orientation resolves to.
pub proof fn lemma_lock_on_threshold(d: Die)
    requires
        d.wf(),
        !d.locked,
        d.settle_timer == 0,
        d.still_now(),
    ensures
        !still_run(d, LOCK_TICKS as nat).locked,
        still_run(d, (LOCK_TICKS + 1) as nat).locked,
        still_run(d, (LOCK_TICKS + 1) as nat).body_mode == BodyMode::Static,
        still_run(d, (LOCK_TICKS + 1) as nat).face_value
            == Some((d.orientation.face_of() as u32)),
        still_run(d, (LOCK_TICKS + 1) as nat).wf(),
{
    lemma_still_run_counts(d, LOCK_TICKS as nat);
    let p = still_run(d, LOCK_TICKS as nat);
    assert(still_run(d, (LOCK_TICKS + 1) as nat) == settle_tick(p));
    lemma_face_of_range(d.orientation);
}

/// Once locked by stillness, a die stays locked on every later tick:
/// the state after any `n > LOCK_TICKS` still ticks is exactly the state
/// at the lock tick.
pub proof fn lemma_lock_is_monotone(d: Die, n: nat)
    requires
        d.wf(),
        !d.locked,
        d.settle_timer == 0,
        d.still_now(),
        n >= LOCK_TICKS + 1,
    ensures
        still_run(d, n) == still_run(d, (LOCK_TICKS + 1) as nat),
        still_run(d, n).locked,
    decreases n,
{
    lemma_lock_on_threshold(d);
    if n > LOCK_TICKS + 1 {
        lemma_lock_is_monotone(d, (n - 1) as nat);
        lemma_locked_inert(still_run(d, (n - 1) as nat));
    }
}

/// A lock never reverts: whatever the physics engine reports and whether
/// or not the bounds guard moves the die, a full tick leaves a locked die
/// locked, with the same face value and the same frozen body mode.
pub proof fn lemma_lock_never_reverts(d: Die)
    requires
        d.locked,
    ensures
        d.tick_spec().locked,
        d.tick_spec().face_value == d.face_value,
        d.tick_spec().body_mode == d.body_mode,
        d.tick_spec().orientation == d.orientation,
{
}

/// Round trip from spawn to read-out: a die spawned with pose `q` and
/// left undisturbed locks with exactly the face value that resolving `q`
/// directly gives - the resolved face is a function of the spawn
/// orientation alone.
pub proof fn lemma_spawn_face_round_trip(id: usize, q: QuatFx)
    requires
        id < BATCH_SIZE,
        q.in_range(),
    ensures
        still_run(Die::spawn_spec(id, q), (LOCK_TICKS + 1) as nat).face_value
            == Some((q.face_of() as u32)),
{
    let d = Die::spawn_spec(id, q);
    assert(d.still_now());
    lemma_lock_on_threshold(d);
}

/// Motion observed after 19 still ticks resets the counter to zero on
/// that very tick, and the die does not lock on it: only an unbroken run
/// of still ticks can reach the threshold.
pub proof fn lemma_motion_resets_counter(d: Die, lin: Vec3Fx, ang: Vec3Fx)
    requires
        d.wf(),
        !d.locked,
        d.settle_timer == 0,
        d.still_now(),
        !is_still(lin, ang),
    ensures
        settle_tick(
            (Die {
                linear_velocity: lin,
                angular_velocity: ang,
                ..still_run(d, (LOCK_TICKS - 1) as nat)
            }),
        ).settle_timer == 0,
        !settle_tick(
            (Die {
                linear_velocity: lin,
                angular_velocity: ang,
                ..still_run(d, (LOCK_TICKS - 1) as nat)
            }),
        ).locked,
{
    lemma_still_run_counts(d, (LOCK_TICKS - 1) as nat);
}

} // verus!
