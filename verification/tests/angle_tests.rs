use emcee::angle::{
    Angle, Rotation, FULL_TURN, HALF_TURN, MICRODEGREES_PER_DEGREE, QUARTER_TURN,
};

fn degrees(pitch: i32, yaw: i32, roll: i32) -> Rotation {
    Rotation {
        pitch: Angle::from_degrees(pitch),
        yaw: Angle::from_degrees(yaw),
        roll: Angle::from_degrees(roll),
    }
}

fn micro(pitch: i64, yaw: i64, roll: i64) -> Rotation {
    Rotation {
        pitch: Angle { microdegrees: pitch },
        yaw: Angle { microdegrees: yaw },
        roll: Angle { microdegrees: roll },
    }
}

#[test]
fn the_units_of_an_angle() {
    assert_eq!(MICRODEGREES_PER_DEGREE, 1_000_000);
    assert_eq!(QUARTER_TURN, 90_000_000);
    assert_eq!(HALF_TURN, 180_000_000);
    assert_eq!(FULL_TURN, 360_000_000);
    assert_eq!(Angle::from_degrees(90).microdegrees, QUARTER_TURN);
    assert_eq!(Angle::from_degrees(-1).microdegrees, -1_000_000);
    assert_eq!(Angle::from_degrees(i32::MAX).microdegrees, i32::MAX as i64 * 1_000_000);
    assert_eq!(Angle::from_degrees(i32::MIN).microdegrees, i32::MIN as i64 * 1_000_000);
    assert_eq!(Angle::zero().microdegrees, 0);
}

#[test]
fn pitch_above_a_quarter_turn_is_pinned_to_it() {
    let mut rot = degrees(80, 0, 0);
    rot.rotate(degrees(20, 0, 0));
    assert_eq!(rot.pitch.microdegrees, 90_000_000);
    rot.rotate(micro(1, 0, 0));
    assert_eq!(rot.pitch.microdegrees, 90_000_000);
    rot.rotate(micro(i64::MAX, 0, 0));
    assert_eq!(rot.pitch.microdegrees, 90_000_000);
}

#[test]
fn pitch_below_a_quarter_turn_down_is_pinned_to_it() {
    let mut rot = degrees(-80, 0, 0);
    rot.rotate(degrees(-20, 0, 0));
    assert_eq!(rot.pitch.microdegrees, -90_000_000);
    rot.rotate(micro(-1, 0, 0));
    assert_eq!(rot.pitch.microdegrees, -90_000_000);
    rot.rotate(micro(i64::MIN, 0, 0));
    assert_eq!(rot.pitch.microdegrees, -90_000_000);
}

#[test]
fn pitch_within_the_limits_is_the_sum() {
    let mut rot = degrees(10, 0, 0);
    rot.rotate(degrees(-25, 0, 0));
    assert_eq!(rot.pitch, Angle::from_degrees(-15));
    rot.rotate(degrees(105, 0, 0));
    assert_eq!(rot.pitch, Angle::from_degrees(90));
    rot.rotate(degrees(-180, 0, 0));
    assert_eq!(rot.pitch, Angle::from_degrees(-90));
    rot.rotate(micro(179_999_999, 0, 0));
    assert_eq!(rot.pitch.microdegrees, 89_999_999);
}

#[test]
fn a_pitch_out_of_range_is_brought_back_by_any_turn() {
    let mut rot = micro(i64::MAX, 0, 0);
    rot.rotate(micro(i64::MAX, 0, 0));
    assert_eq!(rot.pitch.microdegrees, QUARTER_TURN);
    let mut rot = micro(i64::MIN, 0, 0);
    rot.rotate(micro(i64::MIN, 0, 0));
    assert_eq!(rot.pitch.microdegrees, -QUARTER_TURN);
    let mut rot = micro(i64::MAX, 0, 0);
    rot.rotate(micro(i64::MIN, 0, 0));
    assert_eq!(rot.pitch.microdegrees, -1);
}

#[test]
fn yaw_and_roll_wrap_around_the_full_turn() {
    let mut rot = degrees(0, 350, 10);
    rot.rotate(degrees(0, 20, -20));
    assert_eq!(rot.yaw, Angle::from_degrees(10));
    assert_eq!(rot.roll, Angle::from_degrees(350));
    rot.rotate(degrees(0, 350, 10));
    assert_eq!(rot.yaw, Angle::from_degrees(0));
    assert_eq!(rot.roll, Angle::from_degrees(0));
    rot.rotate(micro(0, -1, 359_999_999));
    assert_eq!(rot.yaw.microdegrees, 359_999_999);
    assert_eq!(rot.roll.microdegrees, 359_999_999);
    rot.rotate(degrees(0, 3600, -3600));
    assert_eq!(rot.yaw.microdegrees, 359_999_999);
    assert_eq!(rot.roll.microdegrees, 359_999_999);
}

#[test]
fn yaw_and_roll_end_in_range_whatever_the_turn() {
    let extremes = [i64::MIN, i64::MIN + 1, -FULL_TURN, -1, 0, 1, FULL_TURN, i64::MAX - 1, i64::MAX];
    for &start in extremes.iter() {
        for &delta in extremes.iter() {
            let mut rot = micro(start, start, start);
            rot.rotate(micro(delta, delta, delta));
            assert!(rot.check_normalized());
            assert!(0 <= rot.yaw.microdegrees && rot.yaw.microdegrees < FULL_TURN);
            assert!(0 <= rot.roll.microdegrees && rot.roll.microdegrees < FULL_TURN);
            assert!(-QUARTER_TURN <= rot.pitch.microdegrees);
            assert!(rot.pitch.microdegrees <= QUARTER_TURN);
            let sum = start as i128 + delta as i128;
            assert_eq!(rot.yaw.microdegrees as i128, sum.rem_euclid(FULL_TURN as i128));
            assert_eq!(rot.roll.microdegrees as i128, sum.rem_euclid(FULL_TURN as i128));
            assert_eq!(
                rot.pitch.microdegrees as i128,
                sum.clamp(-QUARTER_TURN as i128, QUARTER_TURN as i128)
            );
        }
    }
}

#[test]
fn clamped_and_wrapped_sums() {
    let a = Angle::from_degrees(45);
    assert_eq!(a.clamped_sum(Angle::from_degrees(44)), Angle::from_degrees(89));
    assert_eq!(a.clamped_sum(Angle::from_degrees(46)), Angle::from_degrees(90));
    assert_eq!(a.clamped_sum(Angle::from_degrees(-136)), Angle::from_degrees(-90));
    assert_eq!(a.wrapped_sum(Angle::from_degrees(315)), Angle::from_degrees(0));
    assert_eq!(a.wrapped_sum(Angle::from_degrees(-46)), Angle::from_degrees(359));
    assert_eq!(a.wrapped_sum(Angle::from_degrees(720)), Angle::from_degrees(45));
}

#[test]
fn an_angle_times_a_number() {
    let half_a_degree = Angle { microdegrees: 500_000 };
    assert_eq!(half_a_degree.times(3), Angle { microdegrees: 1_500_000 });
    assert_eq!(half_a_degree.times(-7), Angle { microdegrees: -3_500_000 });
    assert_eq!(half_a_degree.times(0), Angle::zero());
    assert_eq!(half_a_degree.times(i64::MAX), Angle { microdegrees: i64::MAX });
    assert_eq!(half_a_degree.times(i64::MIN), Angle { microdegrees: i64::MIN });
    assert_eq!(Angle { microdegrees: i64::MIN }.times(i64::MIN), Angle { microdegrees: i64::MAX });
    assert_eq!(Angle { microdegrees: i64::MIN }.times(1), Angle { microdegrees: i64::MIN });
    assert_eq!(Angle { microdegrees: -1 }.times(i64::MIN), Angle { microdegrees: i64::MAX });
}

#[test]
fn normalized_orientations() {
    assert!(Rotation::zero().check_normalized());
    assert!(degrees(90, 0, 0).check_normalized());
    assert!(degrees(-90, 359, 359).check_normalized());
    assert!(!degrees(91, 0, 0).check_normalized());
    assert!(!degrees(0, 360, 0).check_normalized());
    assert!(!degrees(0, 0, -1).check_normalized());
}
