//! The roll session: the current batch of five dice and the controller
//! that replaces it wholesale on a roll command.

use vstd::prelude::*;
use crate::die::{BodyMode, Die};
use crate::vec3::Vec3Fx;
use crate::fx::BATCH_SIZE;
use crate::quat::QuatFx;

verus! {

/// The current batch of dice plus the single-slot pending roll command.
///
/// Before the first roll the batch is empty; afterwards it always holds
/// exactly [`BATCH_SIZE`] dice, each in the slot its `id` names. The batch
/// is only ever replaced wholesale: there is no per-die despawn.
pub struct RollSession {
    pub dice: Vec<Die>,
    /// A roll command was raised and not yet consumed. Repeated commands
    /// within one tick coalesce into this one slot.
    pub pending_roll: bool,
}

impl RollSession {
    /// Internal invariant: batch either empty or full, every die well
    /// formed and sitting in the slot its id names.
    pub open spec fn wf(self) -> bool {
        &&& (self.dice.len() == 0 || self.dice.len() == BATCH_SIZE)
        &&& forall|i: int|
            0 <= i < self.dice.len() ==> (#[trigger] self.dice[i]).wf() && self.dice[i].id == i
    }

    /// A session with no dice yet and no command pending.
    pub fn new() -> (s: RollSession)
        ensures
            s.wf(),
            s.dice.len() == 0,
            !s.pending_roll,
    {
        RollSession { dice: Vec::new(), pending_roll: false }
    }

    /// Raise a roll command. One edge-triggered command per press; raising
    /// it again before the next tick changes nothing further.
    pub fn request_roll(&mut self)
        ensures
            final(self).pending_roll,
            final(self).dice == old(self).dice,
    {
        self.pending_roll = true;
    }

    /// Destroy every die of the current batch - whatever its lock state -
    /// and spawn a fresh batch of five dynamic, unlocked dice at the fixed
    /// drop positions, with the poses the sampler chose and no velocity.
    /// Any in-flight settling of the previous batch is discarded.
    pub fn roll(&mut self, poses: &Vec<QuatFx>)
        requires
            poses.len() == BATCH_SIZE,
            forall|i: int| 0 <= i < BATCH_SIZE ==> (#[trigger] poses[i]).in_range(),
        ensures
            final(self).dice.len() == BATCH_SIZE,
            forall|i: int|
                0 <= i < BATCH_SIZE
                    ==> #[trigger] final(self).dice[i] == Die::spawn_spec(i as usize, poses[i]),
            final(self).pending_roll == old(self).pending_roll,
            final(self).wf(),
    {
        self.dice = Vec::new();
        let mut id: usize = 0;
        while id < BATCH_SIZE
            invariant
                id <= BATCH_SIZE,
                self.dice.len() == id,
                poses.len() == BATCH_SIZE,
                forall|i: int| 0 <= i < BATCH_SIZE ==> (#[trigger] poses[i]).in_range(),
                forall|i: int|
                    0 <= i < id ==> #[trigger] self.dice[i] == Die::spawn_spec(i as usize, poses[i]),
                self.pending_roll == old(self).pending_roll,
            decreases BATCH_SIZE - id,
        {
            let d = Die::spawn(id, poses[id]);
            self.dice.push(d);
            id = id + 1;
        }
        proof {
            assert forall|i: int| 0 <= i < self.dice.len() implies (#[trigger] self.dice[i]).wf()
                && self.dice[i].id == i by {
                assert(self.dice[i] == Die::spawn_spec(i as usize, poses[i]));
            }
        }
    }

    /// Start-of-tick command handling: consume at most the one pending
    /// roll command, replacing the whole batch if there was one. Returns
    /// whether a roll happened.
    pub fn tick_command(&mut self, poses: &Vec<QuatFx>) -> (rolled: bool)
        requires
            old(self).wf(),
            poses.len() == BATCH_SIZE,
            forall|i: int| 0 <= i < BATCH_SIZE ==> (#[trigger] poses[i]).in_range(),
        ensures
            rolled == old(self).pending_roll,
            !final(self).pending_roll,
            rolled ==> final(self).dice.len() == BATCH_SIZE
                && forall|i: int|
                    0 <= i < BATCH_SIZE
                        ==> #[trigger] final(self).dice[i] == Die::spawn_spec(i as usize, poses[i]),
            !rolled ==> final(self).dice == old(self).dice,
            final(self).wf(),
    {
        if self.pending_roll {
            self.pending_roll = false;
            self.roll(poses);
            true
        } else {
            false
        }
    }

    /// End-of-tick processing, after the external physics integration:
    /// run the settle tracker on every unlocked die, then the bounds guard
    /// on every die regardless of its lock state.
    pub fn tick_settle(&mut self)
        requires
            old(self).wf(),
        ensures
            final(self).dice.len() == old(self).dice.len(),
            forall|i: int|
                0 <= i < old(self).dice.len()
                    ==> #[trigger] final(self).dice[i] == old(self).dice[i].tick_spec(),
            final(self).pending_roll == old(self).pending_roll,
            final(self).wf(),
    {
        let n = self.dice.len();
        let mut k: usize = 0;
        while k < n
            invariant
                k <= n,
                n == self.dice.len(),
                n == old(self).dice.len(),
                old(self).wf(),
                forall|i: int|
                    0 <= i < k ==> #[trigger] self.dice[i] == old(self).dice[i].tick_spec(),
                forall|i: int| 0 <= i < k ==> (#[trigger] self.dice[i]).wf(),
                forall|i: int| k <= i < n ==> #[trigger] self.dice[i] == old(self).dice[i],
                self.pending_roll == old(self).pending_roll,
            decreases n - k,
        {
            let mut d = self.dice[k];
            if !d.locked {
                d.settle_step();
            }
            d.bounds_guard();
            self.dice[k] = d;
            k = k + 1;
        }
        proof {
            assert forall|i: int| 0 <= i < self.dice.len() implies (#[trigger] self.dice[i]).wf()
                && self.dice[i].id == i by {
                assert(self.dice[i] == old(self).dice[i].tick_spec());
                assert(old(self).dice[i].id == i);
            }
        }
    }

    /// The externally visible result slot: always exactly [`BATCH_SIZE`]
    /// entries, each `None` until the die in that slot locks, and the
    /// locked die's face value from then on.
    pub fn results(&self) -> (r: Vec<Option<u32>>)
        requires
            self.wf(),
        ensures
            r.len() == BATCH_SIZE,
            forall|i: int|
                0 <= i < self.dice.len() ==> #[trigger] r[i] == self.dice[i].face_value,
            self.dice.len() == 0 ==> forall|i: int| 0 <= i < BATCH_SIZE ==> r[i] is None,
    {
        let mut r: Vec<Option<u32>> = Vec::new();
        if self.dice.len() == 0 {
            let mut k: usize = 0;
            while k < BATCH_SIZE
                invariant
                    k <= BATCH_SIZE,
                    r.len() == k,
                    forall|i: int| 0 <= i < k ==> #[trigger] r[i] is None,
                decreases BATCH_SIZE - k,
            {
                r.push(None);
                k = k + 1;
            }
        } else {
            let mut k: usize = 0;
            let n = self.dice.len();
            while k < n
                invariant
                    k <= n,
                    n == self.dice.len(),
                    self.wf(),
                    r.len() == k,
                    forall|i: int| 0 <= i < k ==> #[trigger] r[i] == self.dice[i].face_value,
                decreases n - k,
            {
                r.push(self.dice[k].face_value);
                k = k + 1;
            }
        }
        r
    }

    /// Write back the physical state the external engine integrated for
    /// the unlocked die in slot `k`. Locked dice are Static and no longer
    /// integrated, so their state is never overwritten.
    pub fn apply_physics(
        &mut self,
        k: usize,
        position: Vec3Fx,
        orientation: QuatFx,
        linear_velocity: Vec3Fx,
        angular_velocity: Vec3Fx,
    )
        requires
            old(self).wf(),
            k < old(self).dice.len(),
            !old(self).dice[k as int].locked,
            position.in_range(),
            orientation.in_range(),
            linear_velocity.in_range(),
            angular_velocity.in_range(),
        ensures
            final(self).dice.len() == old(self).dice.len(),
            final(self).dice[k as int] == (Die {
                position,
                orientation,
                linear_velocity,
                angular_velocity,
                ..old(self).dice[k as int]
            }),
            forall|i: int|
                0 <= i < old(self).dice.len() && i != k
                    ==> #[trigger] final(self).dice[i] == old(self).dice[i],
            final(self).pending_roll == old(self).pending_roll,
            final(self).wf(),
    {
        let mut d = self.dice[k];
        d.position = position;
        d.orientation = orientation;
        d.linear_velocity = linear_velocity;
        d.angular_velocity = angular_velocity;
        self.dice[k] = d;
    }
}

} // verus!
