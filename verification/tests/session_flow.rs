use dice_tray::die::BodyMode;
use dice_tray::fx::{BATCH_SIZE, LOCK_TICKS, SCALE, SPAWN_HEIGHT, SPAWN_STEP};
use dice_tray::quat::QuatFx;
use dice_tray::session::RollSession;
use dice_tray::vec3::Vec3Fx;

fn identity_batch() -> Vec<QuatFx> {
    vec![QuatFx::identity(); BATCH_SIZE]
}

#[test]
fn fresh_session_reports_five_empty_results() {
    let s = RollSession::new();
    let r = s.results();
    assert_eq!(r.len(), BATCH_SIZE);
    assert!(r.iter().all(|e| e.is_none()));
}

#[test]
fn roll_spawns_five_dice_at_the_fixed_offsets() {
    let mut s = RollSession::new();
    s.request_roll();
    let rolled = s.tick_command(&identity_batch());
    assert!(rolled);
    assert_eq!(s.dice.len(), BATCH_SIZE);
    let expected = [
        Vec3Fx { x: 0, y: SPAWN_HEIGHT, z: 0 },
        Vec3Fx { x: SPAWN_STEP, y: SPAWN_HEIGHT, z: SPAWN_STEP },
        Vec3Fx { x: SPAWN_STEP, y: SPAWN_HEIGHT, z: -SPAWN_STEP },
        Vec3Fx { x: -SPAWN_STEP, y: SPAWN_HEIGHT, z: SPAWN_STEP },
        Vec3Fx { x: -SPAWN_STEP, y: SPAWN_HEIGHT, z: -SPAWN_STEP },
    ];
    for (k, d) in s.dice.iter().enumerate() {
        assert_eq!(d.id, k);
        assert_eq!(d.position, expected[k]);
        assert_eq!(d.body_mode, BodyMode::Dynamic);
        assert!(!d.locked);
        assert_eq!(d.settle_timer, 0);
        assert_eq!(d.face_value, None);
    }
}

#[test]
fn command_is_consumed_once_per_edge() {
    let mut s = RollSession::new();
    // No command pending: the tick rolls nothing.
    assert!(!s.tick_command(&identity_batch()));
    assert_eq!(s.dice.len(), 0);
    // Raising the command twice within one tick still coalesces to one.
    s.request_roll();
    s.request_roll();
    assert!(s.tick_command(&identity_batch()));
    // Consumed: the next tick rolls nothing again.
    assert!(!s.tick_command(&identity_batch()));
}

#[test]
fn batch_settles_and_results_fill_in() {
    let mut s = RollSession::new();
    s.request_roll();
    s.tick_command(&identity_batch());
    // Spawned dice are still; LOCK_TICKS ticks are not yet enough.
    for _ in 0..LOCK_TICKS {
        s.tick_settle();
    }
    assert!(s.dice.iter().all(|d| !d.locked));
    assert!(s.results().iter().all(|e| e.is_none()));
    // One more still tick locks the whole batch.
    s.tick_settle();
    assert!(s.dice.iter().all(|d| d.locked));
    assert!(s.dice.iter().all(|d| d.body_mode == BodyMode::Static));
    let r = s.results();
    assert_eq!(r, vec![Some(4); BATCH_SIZE]);
}

#[test]
fn roll_replaces_a_half_settled_batch_wholesale() {
    let mut s = RollSession::new();
    s.request_roll();
    s.tick_command(&identity_batch());
    // Keep three dice moving so only two lock.
    for _ in 0..=LOCK_TICKS {
        for k in 2..BATCH_SIZE {
            let d = s.dice[k];
            s.apply_physics(
                k,
                d.position,
                d.orientation,
                Vec3Fx { x: SCALE, y: 0, z: 0 },
                d.angular_velocity,
            );
        }
        s.tick_settle();
    }
    assert_eq!(s.dice.iter().filter(|d| d.locked).count(), 2);
    assert_eq!(s.dice.iter().filter(|d| !d.locked).count(), 3);
    // A roll command discards all five, locked or not, and spawns a
    // fresh batch of five dynamic, unlocked dice at the drop offsets.
    s.request_roll();
    assert!(s.tick_command(&identity_batch()));
    assert_eq!(s.dice.len(), BATCH_SIZE);
    for (k, d) in s.dice.iter().enumerate() {
        assert_eq!(d.id, k);
        assert!(!d.locked);
        assert_eq!(d.body_mode, BodyMode::Dynamic);
        assert_eq!(d.settle_timer, 0);
        assert_eq!(d.face_value, None);
        assert_eq!(d.position.y, SPAWN_HEIGHT);
    }
    assert!(s.results().iter().all(|e| e.is_none()));
}

#[test]
fn escaped_die_is_recovered_during_the_tick() {
    let mut s = RollSession::new();
    s.request_roll();
    s.tick_command(&identity_batch());
    // The physics engine reports die 1 far outside the play volume.
    let d = s.dice[1];
    s.apply_physics(
        1,
        Vec3Fx { x: 0, y: 150 * SCALE, z: 0 },
        d.orientation,
        Vec3Fx { x: 2 * SCALE, y: 0, z: 0 },
        Vec3Fx { x: 0, y: 2 * SCALE, z: 0 },
    );
    s.tick_settle();
    assert_eq!(s.dice[1].position, Vec3Fx { x: 0, y: 30 * SCALE, z: 0 });
    assert_eq!(s.dice[1].linear_velocity, Vec3Fx { x: 0, y: 0, z: 0 });
    assert_eq!(s.dice[1].angular_velocity, Vec3Fx { x: 0, y: 0, z: 0 });
}

#[test]
fn round_trip_spawn_then_resolve_matches_direct_resolve() {
    // The same pose, handed to two separate rolls, settles to the same
    // face value, and that value equals resolving the pose directly.
    let pose = QuatFx { x: 707, y: 0, z: 0, w: 707 };
    let direct = pose.resolve();
    for _ in 0..2 {
        let mut s = RollSession::new();
        s.request_roll();
        s.tick_command(&vec![pose; BATCH_SIZE]);
        for _ in 0..=LOCK_TICKS {
            s.tick_settle();
        }
        for e in s.results() {
            assert_eq!(e, Some(direct));
        }
    }
}
