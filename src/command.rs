//! The turntable's command grammar: each command is one ASCII line ending in `;`.
//!
//! Speeds and angles are held in hundredths (of a speed unit, of a degree), so
//! that the two decimals on the wire are exact: `RotateBy(-3050)` is sent as
//! `+CT,TURNANGLE=-30.50;`.
use vstd::prelude::*;
use crate::text::{fixed2, signed_decimal, push_fixed2, push_signed_decimal};

verus! {

/// A command to send to the turntable.
#[derive(Debug, Clone, PartialEq)]
pub enum Command {
    /// Set the rotation speed, in hundredths of the device's unit (3564 to 13100).
    SetRotationSpeed(i32),
    /// Set the tilt speed, in hundredths of the device's unit (900 to 3500).
    SetTiltSpeed(i32),
    /// Rotate by an angle in hundredths of a degree; positive turns right.
    RotateBy(i32),
    /// Stop rotating at once.
    StopRotation,
    /// Return the rotation to its home angle.
    ZeroRotation,
    /// Rotate without end: -1 to the left, 1 to the right.
    ContinuousRotation(i8),
    /// Tilt to a position in hundredths of a degree; positive tilts up.
    TiltTo(i32),
    /// Stop tilting at once.
    StopTilt,
    /// Return the tilt to neutral.
    ZeroTilt,
    /// Ask for the current angle (the device answers `+DATA=<angle>;`).
    QueryAngle,
    /// A raw command line, sent as it is (it should end with `;`).
    Custom(String),
}

/// The line that stands for `c` on the wire.
pub open spec fn wire_text(c: Command) -> Seq<char> {
    match c {
        Command::SetRotationSpeed(v) => "+CT,TURNSPEED="@ + fixed2(v as int) + ";"@,
        Command::SetTiltSpeed(v) => "+CR,TILTSPEED="@ + fixed2(v as int) + ";"@,
        Command::RotateBy(v) => "+CT,TURNANGLE="@ + fixed2(v as int) + ";"@,
        Command::StopRotation => "+CT,STOP;"@,
        Command::ZeroRotation => "+CT,TOZERO;"@,
        Command::ContinuousRotation(d) => "+CT,TURNCONTINUE="@ + signed_decimal(d as int) + ";"@,
        Command::TiltTo(v) => "+CR,TILTVALUE="@ + fixed2(v as int) + ";"@,
        Command::StopTilt => "+CR,STOP;"@,
        Command::ZeroTilt => "+CR,TOZERO;"@,
        Command::QueryAngle => "+QT,CHANGEANGLE;"@,
        Command::Custom(s) => s@,
    }
}

fn fixed2_line(head: &str, v: i32) -> (r: String)
    ensures
        r@ == head@ + fixed2(v as int) + ";"@,
{
    let mut s = String::from_str(head);
    push_fixed2(&mut s, v as i64);
    s.append(";");
    s
}

impl Command {
    /// The ASCII line to send for this command.
    pub fn to_string(&self) -> (r: String)
        ensures
            r@ == wire_text(*self),
    {
        match self {
            Command::SetRotationSpeed(v) => fixed2_line("+CT,TURNSPEED=", *v),
            Command::SetTiltSpeed(v) => fixed2_line("+CR,TILTSPEED=", *v),
            Command::RotateBy(v) => fixed2_line("+CT,TURNANGLE=", *v),
            Command::StopRotation => String::from_str("+CT,STOP;"),
            Command::ZeroRotation => String::from_str("+CT,TOZERO;"),
            Command::ContinuousRotation(d) => {
                let mut s = String::from_str("+CT,TURNCONTINUE=");
                push_signed_decimal(&mut s, *d as i64);
                s.append(";");
                s
            },
            Command::TiltTo(v) => fixed2_line("+CR,TILTVALUE=", *v),
            Command::StopTilt => String::from_str("+CR,STOP;"),
            Command::ZeroTilt => String::from_str("+CR,TOZERO;"),
            Command::QueryAngle => String::from_str("+QT,CHANGEANGLE;"),
            Command::Custom(s) => s.clone(),
        }
    }
}

} // verus!
