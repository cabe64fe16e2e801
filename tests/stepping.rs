use photo_turntable::stepping::{TurntableSteppingJob, TurntableSteppingState};
use photo_turntable::turntable::RevoTurntable;

fn job(rotation_steps: u16, tilt_steps: u16) -> TurntableSteppingJob {
    TurntableSteppingJob {
        rotation_steps,
        tilt_lower: 0,
        tilt_upper: 1000,
        tilt_steps,
        capture_delay_ms: 0,
    }
}

#[test]
fn run_visits_every_index_once_in_order() {
    let j = job(4, 3);
    let mut s = j.start_state();
    let mut seen = vec![s.overall_step()];
    while !s.done() {
        s = s.advance();
        seen.push(s.overall_step());
    }
    assert_eq!(seen, (0..12).collect::<Vec<u32>>());
    assert_eq!(s.total_steps(), 12);
}

#[test]
fn tilt_rises_only_when_rotation_wraps() {
    let j = job(3, 2);
    let s = TurntableSteppingState { job: j, rotation_step: 1, tilt_step: 0 };
    let t = s.advance();
    assert_eq!((t.rotation_step, t.tilt_step), (2, 0));
    let u = t.advance();
    assert_eq!((u.rotation_step, u.tilt_step), (0, 1));
    assert_eq!(u.overall_step(), 3);
}

#[test]
fn progress_counts_the_next_photo() {
    let j = job(4, 2);
    let s = TurntableSteppingState { job: j, rotation_step: 2, tilt_step: 1 };
    assert_eq!(s.overall_step(), 6);
    assert_eq!(s.progress(), (7, 8));
    assert!(!s.done());
    let last = TurntableSteppingState { job: j, rotation_step: 3, tilt_step: 1 };
    assert!(last.done());
    assert_eq!(last.progress(), (8, 8));
}

#[test]
fn single_photo_job_is_done_at_once() {
    let s = job(1, 1).start_state();
    assert!(s.done());
    assert_eq!(s.total_steps(), 1);
    assert_eq!(s.progress(), (1, 1));
}

#[test]
fn largest_job_fits() {
    let j = job(u16::MAX, u16::MAX);
    let last = TurntableSteppingState { job: j, rotation_step: u16::MAX - 1, tilt_step: u16::MAX - 1 };
    assert_eq!(last.total_steps(), 65535 * 65535);
    assert_eq!(last.overall_step(), 65535 * 65535 - 1);
    assert!(last.done());
}

#[test]
fn tilt_increment_rounds_toward_zero() {
    let mut j = job(4, 3);
    assert_eq!(j.tilt_step_size(), 333);
    j.tilt_lower = 1000;
    j.tilt_upper = 0;
    assert_eq!(j.tilt_step_size(), -333);
    assert_eq!(RevoTurntable::compute_tilt_step(-3000, 3000, 4), 1500);
    assert_eq!(RevoTurntable::compute_tilt_step(i32::MIN, i32::MAX, 1), u32::MAX as i64);
}
