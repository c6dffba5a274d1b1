use dice_tray::die::{BodyMode, Die};
use dice_tray::fx::{ESCAPE_RADIUS, LOCK_TICKS, RECOVERY_HEIGHT, SCALE, VEL_EPS};
use dice_tray::quat::QuatFx;
use dice_tray::vec3::Vec3Fx;

fn fresh_die() -> Die {
    Die::spawn(0, QuatFx::identity())
}

#[test]
fn spawned_die_is_dynamic_and_unlocked() {
    let d = fresh_die();
    assert_eq!(d.body_mode, BodyMode::Dynamic);
    assert!(!d.locked);
    assert_eq!(d.settle_timer, 0);
    assert_eq!(d.face_value, None);
    assert_eq!(d.linear_velocity, Vec3Fx { x: 0, y: 0, z: 0 });
    assert_eq!(d.angular_velocity, Vec3Fx { x: 0, y: 0, z: 0 });
}

#[test]
fn still_die_locks_on_the_twenty_first_tick() {
    let mut d = fresh_die();
    // 20 still ticks: the counter climbs but no lock yet.
    for tick in 1..=LOCK_TICKS {
        d.settle_step();
        assert!(!d.locked, "locked too early, at tick {tick}");
        assert_eq!(d.settle_timer, tick);
        assert_eq!(d.body_mode, BodyMode::Dynamic);
    }
    // The 21st consecutive still tick locks the die.
    d.settle_step();
    assert!(d.locked);
    assert_eq!(d.body_mode, BodyMode::Static);
    assert_eq!(d.settle_timer, 0);
    assert_eq!(d.face_value, Some(4));
}

#[test]
fn motion_at_tick_twenty_resets_the_counter() {
    let mut d = fresh_die();
    // 19 still ticks.
    for _ in 0..(LOCK_TICKS - 1) {
        d.settle_step();
    }
    assert_eq!(d.settle_timer, LOCK_TICKS - 1);
    // A burst of speed at the velocity threshold: 0.1 world units per
    // second is not still (the comparison is strict).
    d.linear_velocity = Vec3Fx { x: VEL_EPS, y: 0, z: 0 };
    d.settle_step();
    assert_eq!(d.settle_timer, 0);
    assert!(!d.locked);
    // The next tick - tick 20 counted from the start - must not lock either.
    d.linear_velocity = Vec3Fx { x: 0, y: 0, z: 0 };
    d.settle_step();
    assert!(!d.locked);
    assert_eq!(d.settle_timer, 1);
}

#[test]
fn spin_alone_also_blocks_settling() {
    let mut d = fresh_die();
    d.angular_velocity = Vec3Fx { x: 0, y: VEL_EPS, z: 0 };
    for _ in 0..(2 * LOCK_TICKS) {
        d.settle_step();
        assert!(!d.locked);
        assert_eq!(d.settle_timer, 0);
    }
}

#[test]
fn velocity_just_below_threshold_counts_as_still() {
    let mut d = fresh_die();
    d.linear_velocity = Vec3Fx { x: VEL_EPS - 1, y: 0, z: 0 };
    d.angular_velocity = Vec3Fx { x: 0, y: 0, z: VEL_EPS - 1 };
    d.settle_step();
    assert_eq!(d.settle_timer, 1);
}

#[test]
fn escaped_die_is_recovered_with_zeroed_velocities() {
    let mut d = fresh_die();
    // 150 world units up: magnitude 150 > 100.
    d.position = Vec3Fx { x: 0, y: 150 * SCALE, z: 0 };
    d.linear_velocity = Vec3Fx { x: 5 * SCALE, y: -3 * SCALE, z: 0 };
    d.angular_velocity = Vec3Fx { x: 0, y: 0, z: 9 * SCALE };
    d.bounds_guard();
    assert_eq!(d.position, Vec3Fx { x: 0, y: RECOVERY_HEIGHT, z: 0 });
    assert_eq!(d.linear_velocity, Vec3Fx { x: 0, y: 0, z: 0 });
    assert_eq!(d.angular_velocity, Vec3Fx { x: 0, y: 0, z: 0 });
}

#[test]
fn bounds_guard_recovers_locked_dice_too() {
    let d0 = fresh_die();
    let mut d = Die {
        position: Vec3Fx { x: 150 * SCALE, y: 0, z: 0 },
        body_mode: BodyMode::Static,
        locked: true,
        face_value: Some(4),
        ..d0
    };
    d.bounds_guard();
    assert_eq!(d.position, Vec3Fx { x: 0, y: RECOVERY_HEIGHT, z: 0 });
    assert!(d.locked);
    assert_eq!(d.face_value, Some(4));
    assert_eq!(d.body_mode, BodyMode::Static);
}

#[test]
fn die_inside_the_play_volume_is_left_alone() {
    let mut d = fresh_die();
    // Exactly 100 world units from the origin: not yet an escape, the
    // comparison is strict.
    d.position = Vec3Fx { x: ESCAPE_RADIUS, y: 0, z: 0 };
    d.linear_velocity = Vec3Fx { x: 7, y: 8, z: 9 };
    d.bounds_guard();
    assert_eq!(d.position, Vec3Fx { x: ESCAPE_RADIUS, y: 0, z: 0 });
    assert_eq!(d.linear_velocity, Vec3Fx { x: 7, y: 8, z: 9 });
}
