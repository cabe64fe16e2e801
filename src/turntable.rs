//! The turntable driver's motions, planned without feedback from the device.
//!
//! Each motion is a list of commands to send and a time to wait after them:
//! the device reports nothing, so a motion counts as finished once its time
//! has passed. The times follow from the speeds set by `configure`, which are
//! held as constants here.
use vstd::prelude::*;
use crate::command::Command;

verus! {

/// The rotation speed set at connection, in hundredths of the device's unit.
pub const ROTATION_PACE: i32 = 3564;

/// The tilt speed set at connection, in hundredths of the device's unit.
pub const TILT_PACE: i32 = 900;

/// Time to let the speed settings take effect, in milliseconds.
pub const CONFIGURE_SETTLE_MS: u64 = 100;

/// The shortest wait after a return to the home position, in milliseconds.
pub const RESET_FLOOR_MS: u64 = 3500;

/// Wait after a return to neutral tilt, in milliseconds.
pub const TILT_RESET_MS: u64 = 3500;

/// Milliseconds the tilt takes to move sixty degrees.
pub const TILT_MS_PER_60_DEG: u64 = 7000;

/// Commands to send in order, then a wait; `tilt_after` is the tilt, in
/// hundredths of a degree, once the motion is over.
#[derive(Debug)]
pub struct Motion {
    pub commands: Vec<Command>,
    pub settle_ms: u64,
    pub tilt_after: i32,
}

/// A Revopoint dual-axis turntable, as far as planning its motions needs: the
/// tilt it was last sent to, in hundredths of a degree.
#[derive(Debug, Clone, Copy, PartialEq, Eq)]
pub struct RevoTurntable {
    pub tilt: i32,
}

/// The wait for one rotation step when a revolution takes `steps` steps:
/// `1000 * pace / steps` milliseconds, rounded down.
pub open spec fn rotation_settle_ms(steps: int) -> int {
    (10 * ROTATION_PACE as int) / steps
}

/// The angle of one rotation step, in hundredths of a degree, rounded to nearest.
pub open spec fn rotation_angle(steps: int) -> int {
    (72000 + steps) / (2 * steps)
}

/// The wait for a tilt of `delta` hundredths of a degree:
/// `7000 * |degrees| / 60` milliseconds, rounded down.
pub open spec fn tilt_settle_ms(delta: int) -> int {
    let m = if delta < 0 { -delta } else { delta };
    (TILT_MS_PER_60_DEG as int * m) / 6000
}

/// The wait after a return to the home position: `max(pace * 500, floor)` milliseconds.
pub open spec fn reset_settle_ms() -> int {
    let w = 5 * ROTATION_PACE as int;
    if w > RESET_FLOOR_MS as int { w } else { RESET_FLOOR_MS as int }
}

impl RevoTurntable {
    /// A freshly connected turntable, taken to stand at neutral tilt.
    pub fn new() -> (r: Self)
        ensures
            r.tilt == 0,
    {
        RevoTurntable { tilt: 0 }
    }

    /// Set the rotation and tilt speeds that the motion times assume.
    pub fn configure(&self) -> (m: Motion)
        ensures
            m.commands@ == seq![
                Command::SetRotationSpeed(ROTATION_PACE),
                Command::SetTiltSpeed(TILT_PACE),
            ],
            m.settle_ms == CONFIGURE_SETTLE_MS,
            m.tilt_after == self.tilt,
    {
        let commands = vec![Command::SetRotationSpeed(ROTATION_PACE), Command::SetTiltSpeed(TILT_PACE)];
        Motion { commands, settle_ms: CONFIGURE_SETTLE_MS, tilt_after: self.tilt }
    }

    /// Return rotation and tilt to their zero positions.
    pub fn reset_pos(&self) -> (m: Motion)
        ensures
            m.commands@ == seq![Command::ZeroRotation, Command::ZeroTilt],
            m.settle_ms == reset_settle_ms(),
            m.tilt_after == 0,
    {
        let w: u64 = 5 * ROTATION_PACE as u64;
        let settle_ms = if w > RESET_FLOOR_MS { w } else { RESET_FLOOR_MS };
        Motion { commands: vec![Command::ZeroRotation, Command::ZeroTilt], settle_ms, tilt_after: 0 }
    }

    /// Return the tilt to neutral.
    pub fn reset_tilt(&self) -> (m: Motion)
        ensures
            m.commands@ == seq![Command::ZeroTilt],
            m.settle_ms == TILT_RESET_MS,
            m.tilt_after == 0,
    {
        Motion { commands: vec![Command::ZeroTilt], settle_ms: TILT_RESET_MS, tilt_after: 0 }
    }

    /// Rotate by one step of a revolution made in `steps` steps.
    pub fn step_horizontal(&self, steps: u16) -> (m: Motion)
        requires
            steps >= 1,
        ensures
            m.commands@ == seq![Command::RotateBy(rotation_angle(steps as int) as i32)],
            m.settle_ms == rotation_settle_ms(steps as int),
            m.tilt_after == self.tilt,
    {
        let n = steps as u32;
        let angle = (72000 + n) / (2 * n);
        let settle_ms = (10 * ROTATION_PACE as u64) / (steps as u64);
        Motion { commands: vec![Command::RotateBy(angle as i32)], settle_ms, tilt_after: self.tilt }
    }

    /// Whether a tilt by `delta` from the present tilt stays within what a
    /// command can carry.
    pub open spec fn can_tilt_by(self, delta: int) -> bool {
        i32::MIN <= self.tilt + delta <= i32::MAX
    }

    /// Whether a tilt by `delta` from the present tilt stays within what a
    /// command can carry.
    pub fn tilt_fits(&self, delta: i64) -> (r: bool)
        ensures
            r == self.can_tilt_by(delta as int),
    {
        let t = self.tilt as i128 + delta as i128;
        i32::MIN as i128 <= t && t <= i32::MAX as i128
    }

    /// Tilt by `delta` hundredths of a degree from the present tilt.
    pub fn step_tilt(&self, delta: i64) -> (m: Motion)
        requires
            self.can_tilt_by(delta as int),
        ensures
            m.commands@ == seq![Command::TiltTo((self.tilt + delta) as i32)],
            m.settle_ms == tilt_settle_ms(delta as int),
            m.tilt_after == self.tilt + delta,
    {
        let target = (self.tilt as i64 + delta) as i32;
        let mag: u64 = if delta < 0 { (-(delta as i128)) as u64 } else { delta as u64 };
        let settle_ms = ((TILT_MS_PER_60_DEG as u128 * mag as u128) / 6000) as u64;
        proof {
            assert(TILT_MS_PER_60_DEG as int * mag <= 7000 * 0x8000_0000_0000_0000) by (nonlinear_arith)
                requires mag <= 0x8000_0000_0000_0000;
        }
        Motion { commands: vec![Command::TiltTo(target)], settle_ms, tilt_after: target }
    }

    /// Record that `m` has been carried out.
    pub fn completed(&mut self, m: &Motion)
        ensures
            final(self).tilt == m.tilt_after,
    {
        self.tilt = m.tilt_after;
    }

    /// The tilt between levels for a range and a number of levels, in
    /// hundredths of a degree, rounded toward zero.
    pub fn compute_tilt_step(tilt_lower: i32, tilt_upper: i32, tilt_steps: u16) -> (r: i64)
        requires
            tilt_steps >= 1,
        ensures
            r == tilt_increment(tilt_lower as int, tilt_upper as int, tilt_steps as int),
    {
        let d: i64 = tilt_upper as i64 - tilt_lower as i64;
        if d >= 0 {
            d / (tilt_steps as i64)
        } else {
            let m: u64 = (-d) as u64;
            -((m / (tilt_steps as u64)) as i64)
        }
    }
}

/// `(upper - lower) / steps`, rounded toward zero.
pub open spec fn tilt_increment(lower: int, upper: int, steps: int) -> int {
    let d = upper - lower;
    if d >= 0 {
        d / steps
    } else {
        -((-d) / steps)
    }
}

} // verus!
