//! The ways an operation on the blinds can fail.

use crate::driver::motor::MotorStatus;
use vstd::prelude::*;
use vstd::string::*;

verus! {

#[derive(Clone, Copy, Debug, PartialEq, Eq, Structural)]
pub enum DriverError {
    /// A motor reported a fault while a motion was awaited.
    BadMotorStatus(MotorStatus),
    /// A travel limit that the operation needs has not been learned yet.
    MissingMotorConfig,
    /// The configuration describes no room.
    MissingRoomConfiguration,
    /// The configuration describes both kinds of room at once.
    BothRoomConfigsPresent,
    /// A motor did not settle within its time budget.
    WaitingForStopTimedOut,
    /// A partial position outside of `[0, 1]` was asked for.
    PartialPositionOutOfRange,
    /// A partial position was asked of a room that has none.
    PartialPositionUnsupported,
    /// A message did not hold what its topic promises.
    MalformedPayload,
    /// The host could not carry a request out, or answered it with
    /// something that is no answer to it.
    Transport,
}

impl DriverError {
    /// The error in words.
    pub open spec fn spec_message(self) -> Seq<char> {
        match self {
            DriverError::BadMotorStatus(status) => "bad motor status "@ + status.spec_name(),
            DriverError::MissingMotorConfig => "missing motor config"@,
            DriverError::MissingRoomConfiguration => "missing room configuration"@,
            DriverError::BothRoomConfigsPresent => "found both room configurations"@,
            DriverError::WaitingForStopTimedOut => "waiting for stop timed out"@,
            DriverError::PartialPositionOutOfRange => "partial position out of range"@,
            DriverError::PartialPositionUnsupported => "partial position unsupported"@,
            DriverError::MalformedPayload => "malformed payload"@,
            DriverError::Transport => "transport failed"@,
        }
    }

    /// Says the error in words, for logs and for people.
    pub fn message(&self) -> (message: String)
        ensures
            message@ == self.spec_message(),
    {
        match self {
            DriverError::BadMotorStatus(status) => "bad motor status ".to_owned().concat(
                status.name(),
            ),
            DriverError::MissingMotorConfig => "missing motor config".to_owned(),
            DriverError::MissingRoomConfiguration => "missing room configuration".to_owned(),
            DriverError::BothRoomConfigsPresent => "found both room configurations".to_owned(),
            DriverError::WaitingForStopTimedOut => "waiting for stop timed out".to_owned(),
            DriverError::PartialPositionOutOfRange => "partial position out of range".to_owned(),
            DriverError::PartialPositionUnsupported => "partial position unsupported".to_owned(),
            DriverError::MalformedPayload => "malformed payload".to_owned(),
            DriverError::Transport => "transport failed".to_owned(),
        }
    }
}

} // verus!
