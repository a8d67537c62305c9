//! The conversation between a procedure and the host that runs it.
//!
//! A procedure never touches a motor. It hands its host a [`Request`], the
//! host carries it out and reports a [`Response`], and the procedure decides
//! what comes next. [`Progress`] is what every such decision returns.

use crate::driver::motor::{LedColor, MotorCommand, MotorStatus};
use crate::error::DriverError;
use vstd::prelude::*;

verus! {

/// Something the host is asked to do on behalf of a procedure.
#[derive(Clone, Copy, Debug, PartialEq, Eq, Structural)]
pub enum Request {
    /// Send the command to the motor bus.
    Motor(MotorCommand),
    /// Let the given time pass.
    Sleep { millis: u64 },
    /// Store the room's configuration as it now stands.
    Persist,
}

/// What the host reports once a request has been carried out.
#[derive(Clone, Copy, Debug, PartialEq, Eq, Structural)]
pub enum Response {
    /// The request was carried out and yields no value.
    Done,
    /// Answer to a position query, in tenths of a degree.
    Position(i32),
    /// Answer to a status query.
    Status(MotorStatus),
    /// Answer to an indicator query.
    Indicator(LedColor),
    /// The request could not be carried out.
    Failed,
}

impl Response {
    /// Whether this is a status that says the motor has come to rest.
    pub open spec fn reports_settled(self) -> bool {
        self is Status && self->Status_0.is_settled()
    }

    /// Whether this is a status that says the motor is still in motion.
    pub open spec fn reports_motion(self) -> bool {
        self is Status && self->Status_0.is_transitional()
    }

    /// Whether this is a status that says the motor has given up.
    pub open spec fn reports_fault(self) -> bool {
        self is Status && self->Status_0.is_fault()
    }
}

/// Where a procedure stands after a decision: it either waits for the answer
/// to a request, as the machine in `Pending`, or it is over.
#[derive(Debug, PartialEq, Eq)]
pub enum Progress<M, T> {
    Pending(M, Request),
    Finished(Result<T, DriverError>),
}

impl<M, T> Progress<M, T> {
    /// The request the host has to carry out next, if the procedure goes on.
    pub open spec fn request(self) -> Option<Request> {
        match self {
            Progress::Pending(_, request) => Some(request),
            Progress::Finished(_) => None,
        }
    }

    /// The result, once the procedure is over.
    pub open spec fn result(self) -> Option<Result<T, DriverError>> {
        match self {
            Progress::Pending(_, _) => None,
            Progress::Finished(result) => Some(result),
        }
    }
}

} // verus!
