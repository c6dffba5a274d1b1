use dice_tray::fx::{BATCH_SIZE, HALF_PI_FX, PI_FX, SCALE, TWO_PI_FX};
use dice_tray::sampler::{
    pose_from_axis_angle, random_pose, random_pose_batch, sample_angle, sample_axis,
};
use dice_tray::trig::{cos_fx, isqrt, sin_fx};
use dice_tray::vec3::Vec3Fx;

#[test]
fn isqrt_exact_values() {
    assert_eq!(isqrt(0), 0);
    assert_eq!(isqrt(1), 1);
    assert_eq!(isqrt(3), 1);
    assert_eq!(isqrt(4), 2);
    assert_eq!(isqrt(999999), 999);
    assert_eq!(isqrt(1000000), 1000);
    assert_eq!(isqrt(3000000), 1732);
}

#[test]
fn sine_hits_the_exact_anchor_points() {
    // Bhaskara's approximation is exact at 0, pi/2 and pi.
    assert_eq!(sin_fx(0), 0);
    assert_eq!(sin_fx(HALF_PI_FX), SCALE);
    assert_eq!(sin_fx(PI_FX), 0);
    assert_eq!(sin_fx(PI_FX + HALF_PI_FX), -SCALE);
    assert_eq!(cos_fx(0), SCALE);
    assert_eq!(cos_fx(HALF_PI_FX), 0);
    assert_eq!(cos_fx(PI_FX), -SCALE);
}

#[test]
fn sine_stays_in_range_across_the_full_turn() {
    let mut t: i64 = 0;
    while t < TWO_PI_FX {
        let s = sin_fx(t);
        let c = cos_fx(t);
        assert!((-SCALE..=SCALE).contains(&s));
        assert!((-SCALE..=SCALE).contains(&c));
        t += 17;
    }
}

#[test]
fn degenerate_axis_sample_falls_back_to_vertical() {
    // All three raw samples zero - either literally or zero after the
    // fold into the fixed-point range.
    assert_eq!(sample_axis(0, 0, 0), Vec3Fx { x: 0, y: SCALE, z: 0 });
    let m = (SCALE as u32) + 1;
    assert_eq!(sample_axis(m, 2 * m, 3 * m), Vec3Fx { x: 0, y: SCALE, z: 0 });
}

#[test]
fn axis_samples_are_normalized() {
    // A 3-4-0 sample normalizes to 600-800-0 exactly.
    assert_eq!(
        sample_axis(300, 400, 0),
        Vec3Fx { x: 600, y: 800, z: 0 }
    );
    // An already-unit sample is unchanged.
    assert_eq!(
        sample_axis(SCALE as u32, 0, 0),
        Vec3Fx { x: SCALE, y: 0, z: 0 }
    );
}

#[test]
fn angles_fold_into_one_turn() {
    assert_eq!(sample_angle(0), 0);
    assert_eq!(sample_angle((TWO_PI_FX - 1) as u32), TWO_PI_FX - 1);
    assert_eq!(sample_angle(TWO_PI_FX as u32), 0);
    assert_eq!(sample_angle(10000), 10000 - TWO_PI_FX);
}

#[test]
fn zero_angle_gives_the_identity_pose() {
    let q = pose_from_axis_angle(Vec3Fx { x: SCALE, y: 0, z: 0 }, 0);
    assert_eq!(q.x, 0);
    assert_eq!(q.y, 0);
    assert_eq!(q.z, 0);
    assert_eq!(q.w, SCALE);
}

#[test]
fn random_poses_are_in_range() {
    for _ in 0..100 {
        let q = random_pose();
        for c in [q.x, q.y, q.z, q.w] {
            assert!((-SCALE..=SCALE).contains(&c));
        }
    }
    let batch = random_pose_batch();
    assert_eq!(batch.len(), BATCH_SIZE);
}
