//! What a motor reports and what it can be told.

use vstd::prelude::*;

verus! {

/// Address that reaches every motor on the bus at once.
pub const BROADCAST_ID: u8 = 254;

/// Colour of a motor's indicator light. A motor keeps the colour it was
/// configured with across commands and falls back to its stored default when
/// it loses power, which makes the light a cheap witness of a reboot.
#[derive(Clone, Copy, Debug, PartialEq, Eq, Structural)]
pub enum LedColor {
    Off,
    Red,
    Green,
    Blue,
    Yellow,
    Cyan,
    Magenta,
    White,
}

/// A primitive command of the motor bus. Positions are tenths of a degree,
/// speeds are degrees per second and current limits are milliamperes.
#[derive(Clone, Copy, Debug, PartialEq, Eq, Structural)]
pub enum MotorCommand {
    /// Move to an absolute position; the motor goes limp when it draws more
    /// than `current_limit`.
    MoveTo { motor: u8, target: i32, current_limit: u32 },
    /// Rotate continuously; the motor goes limp when it draws more than
    /// `current_limit`, which is how a mechanical stop is found.
    Rotate { motor: u8, speed: i32, current_limit: u32 },
    /// Cap the speed of later motions.
    SetMaxSpeed { motor: u8, speed: i32 },
    QueryPosition { motor: u8 },
    QueryStatus { motor: u8 },
    QueryIndicator { motor: u8 },
    /// Show a colour until the next reboot.
    SetIndicator { motor: u8, color: LedColor },
    /// Store the colour the motor shows after a reboot.
    ConfigureIndicator { motor: u8, color: LedColor },
    /// Cut power to the motor so that it spins freely.
    Release { motor: u8 },
    /// Restart the motor with its stored settings.
    Reset { motor: u8 },
}

/// Status a motor reports when polled.
#[derive(Clone, Copy, Debug, PartialEq, Eq, Structural)]
pub enum MotorStatus {
    Unknown,
    Limp,
    FreeMoving,
    Accelerating,
    Traveling,
    Decelerating,
    Holding,
    OutsideLimits,
    Stuck,
    Blocked,
    SafeMode,
}

/// The three ways a status bears on a wait for the end of a motion.
#[derive(Clone, Copy, Debug, PartialEq, Eq, Structural)]
pub enum StatusKind {
    /// The motor has stopped and reports a steady state.
    Settled,
    /// The motor is still in motion.
    Transitional,
    /// The motor has given up; the motion will not complete.
    Fault,
}

impl MotorStatus {
    pub open spec fn is_settled(self) -> bool {
        self is Limp || self is Holding
    }

    pub open spec fn is_fault(self) -> bool {
        self is Unknown || self is OutsideLimits || self is Stuck || self is Blocked
            || self is SafeMode
    }

    pub open spec fn is_transitional(self) -> bool {
        self is FreeMoving || self is Accelerating || self is Traveling || self is Decelerating
    }

    pub open spec fn spec_kind(self) -> StatusKind {
        if self.is_settled() {
            StatusKind::Settled
        } else if self.is_fault() {
            StatusKind::Fault
        } else {
            StatusKind::Transitional
        }
    }

    /// The name of the status.
    pub open spec fn spec_name(self) -> Seq<char> {
        match self {
            MotorStatus::Unknown => "Unknown"@,
            MotorStatus::Limp => "Limp"@,
            MotorStatus::FreeMoving => "FreeMoving"@,
            MotorStatus::Accelerating => "Accelerating"@,
            MotorStatus::Traveling => "Traveling"@,
            MotorStatus::Decelerating => "Decelerating"@,
            MotorStatus::Holding => "Holding"@,
            MotorStatus::OutsideLimits => "OutsideLimits"@,
            MotorStatus::Stuck => "Stuck"@,
            MotorStatus::Blocked => "Blocked"@,
            MotorStatus::SafeMode => "SafeMode"@,
        }
    }

    pub fn name(self) -> (name: &'static str)
        ensures
            name@ == self.spec_name(),
    {
        match self {
            MotorStatus::Unknown => "Unknown",
            MotorStatus::Limp => "Limp",
            MotorStatus::FreeMoving => "FreeMoving",
            MotorStatus::Accelerating => "Accelerating",
            MotorStatus::Traveling => "Traveling",
            MotorStatus::Decelerating => "Decelerating",
            MotorStatus::Holding => "Holding",
            MotorStatus::OutsideLimits => "OutsideLimits",
            MotorStatus::Stuck => "Stuck",
            MotorStatus::Blocked => "Blocked",
            MotorStatus::SafeMode => "SafeMode",
        }
    }

    /// Classifies the status.
    pub fn kind(self) -> (kind: StatusKind)
        ensures
            kind == self.spec_kind(),
            (kind is Settled) == self.is_settled(),
            (kind is Fault) == self.is_fault(),
            (kind is Transitional) == self.is_transitional(),
    {
        match self {
            MotorStatus::Limp | MotorStatus::Holding => StatusKind::Settled,
            MotorStatus::Unknown
            | MotorStatus::OutsideLimits
            | MotorStatus::Stuck
            | MotorStatus::Blocked
            | MotorStatus::SafeMode => StatusKind::Fault,
            MotorStatus::FreeMoving
            | MotorStatus::Accelerating
            | MotorStatus::Traveling
            | MotorStatus::Decelerating => StatusKind::Transitional,
        }
    }
}

} // verus!
