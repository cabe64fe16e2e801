use photo_turntable::command::Command;
use photo_turntable::turntable::RevoTurntable;

#[test]
fn configure_sets_both_speeds() {
    let m = RevoTurntable::new().configure();
    assert_eq!(m.commands, vec![Command::SetRotationSpeed(3564), Command::SetTiltSpeed(900)]);
    assert_eq!(m.settle_ms, 100);
}

#[test]
fn reset_waits_for_the_slower_of_pace_and_floor() {
    let m = RevoTurntable { tilt: 1200 }.reset_pos();
    assert_eq!(m.commands, vec![Command::ZeroRotation, Command::ZeroTilt]);
    assert_eq!(m.settle_ms, 17820);
    assert_eq!(m.tilt_after, 0);
    let t = RevoTurntable { tilt: 1200 }.reset_tilt();
    assert_eq!(t.commands, vec![Command::ZeroTilt]);
    assert_eq!(t.settle_ms, 3500);
}

#[test]
fn rotation_step_angle_and_wait() {
    let t = RevoTurntable::new();
    let m = t.step_horizontal(24);
    assert_eq!(m.commands, vec![Command::RotateBy(1500)]);
    assert_eq!(m.settle_ms, 1485);
    let m7 = t.step_horizontal(7);
    assert_eq!(m7.commands, vec![Command::RotateBy(5143)]);
    assert_eq!(m7.settle_ms, 5091);
    let m1 = t.step_horizontal(1);
    assert_eq!(m1.commands, vec![Command::RotateBy(36000)]);
    assert_eq!(m1.settle_ms, 35640);
}

#[test]
fn tilt_moves_to_an_absolute_target() {
    let mut t = RevoTurntable::new();
    let m = t.step_tilt(500);
    assert_eq!(m.commands, vec![Command::TiltTo(500)]);
    assert_eq!(m.settle_ms, 583);
    t.completed(&m);
    assert_eq!(t.tilt, 500);
    let back = t.step_tilt(-1100);
    assert_eq!(back.commands, vec![Command::TiltTo(-600)]);
    assert_eq!(back.settle_ms, 1283);
}

#[test]
fn tilt_target_must_fit_a_command() {
    let t = RevoTurntable { tilt: i32::MAX - 1 };
    assert!(t.tilt_fits(1));
    assert!(!t.tilt_fits(2));
    assert!(RevoTurntable::new().tilt_fits(i32::MIN as i64));
}
