//! Room controllers and the vocabulary they share with their host.

use crate::driver::bedroom_blinds::BedroomBlinds;
use crate::driver::living_room_blinds::LivingRoomBlinds;
use crate::driver::motor::{LedColor, MotorCommand};
use crate::driver::protocol::{Progress, Request, Response};
use crate::driver::wait::Answer;
use crate::error::DriverError;
use crate::fraction::Fraction;
use vstd::prelude::*;

pub mod bedroom_blinds;
pub mod calibration;
pub mod living_room_blinds;
pub mod motion;
pub mod motor;
pub mod protocol;
pub mod routine;
pub mod wait;

verus! {

/// Colour a motor is configured to show after a reboot.
pub const UNCALIBRATED_COLOR: LedColor = LedColor::Magenta;

/// Colour a motor shows from its configuration until its next reboot. A
/// motor that shows anything else has lost power since.
pub const CALIBRATED_COLOR: LedColor = LedColor::Off;

/// Current limit, in milliamperes, of the living room's motors and of the
/// bedroom's motor on its way down.
pub const SLIDING_CURRENT_LIMIT: u32 = 400;

/// Current limit, in milliamperes, of the bedroom's motor on its way up.
pub const BEDROOM_LIFTING_CURRENT_LIMIT: u32 = 600;

/// Speed of a slide, in degrees per second. Towards open it is negative.
pub const SLIDING_SPEED: i32 = 340;

/// Time the living room's blinds are given to slide from one end of the
/// window to the other.
pub const LIVING_ROOM_SLIDING_TIMEOUT_MS: u64 = 22_000;

/// Time the living room's louvers are given to turn.
pub const LIVING_ROOM_FLIPPER_TIMEOUT_MS: u64 = 3_000;

/// Time the bedroom's blind is given to travel its whole length.
pub const BEDROOM_SLIDING_TIMEOUT_MS: u64 = 20_000;

/// Distance, in tenths of a degree, between the place where the bedroom's
/// blind stalls and the top of its travel, and again between that top and
/// the place where the blind rests when open.
pub const BEDROOM_DOOR_TOP_OFFSET: i32 = 1_000;

/// Distance, in tenths of a degree, between the top of the travel of the
/// bedroom's blind and the place where it is fully let down.
pub const BEDROOM_BLIND_BOTTOM_OFFSET: i32 = 45_000;

/// Pause after the motors have been told to restart.
pub const RESET_PAUSE_MS: u64 = 2_000;

/// The logical position of a room's blinds: what was last commanded, never a
/// sensor reading.
#[derive(Clone, Copy, Debug, PartialEq, Eq, Structural)]
pub enum BlindsState {
    Open,
    Closed,
    Opening,
    Closing,
    Partial,
    Other,
}

impl BlindsState {
    /// The state a `toggle` aims for: closed blinds open, everything else
    /// (an unknown position included) closes.
    pub open spec fn toggle_target(self) -> BlindsState {
        if self is Closed || self is Closing {
            BlindsState::Open
        } else {
            BlindsState::Closed
        }
    }

    /// The name under which the state is published.
    pub open spec fn spec_name(self) -> Seq<char> {
        match self {
            BlindsState::Open => "open"@,
            BlindsState::Closed => "closed"@,
            BlindsState::Opening => "opening"@,
            BlindsState::Closing => "closing"@,
            BlindsState::Partial => "partial"@,
            BlindsState::Other => "other"@,
        }
    }

    pub fn name(self) -> (name: &'static str)
        ensures
            name@ == self.spec_name(),
    {
        match self {
            BlindsState::Open => "open",
            BlindsState::Closed => "closed",
            BlindsState::Opening => "opening",
            BlindsState::Closing => "closing",
            BlindsState::Partial => "partial",
            BlindsState::Other => "other",
        }
    }

    pub fn toggles_to(self) -> (target: BlindsState)
        ensures
            target == self.toggle_target(),
    {
        match self {
            BlindsState::Closed | BlindsState::Closing => BlindsState::Open,
            _ => BlindsState::Closed,
        }
    }
}

/// What a room hands its host after every decision: the state to publish,
/// if the decision changed or confirmed it, and where the operation stands.
/// Publishing is best effort; nothing waits for it and nothing fails by it.
#[derive(Debug, PartialEq, Eq)]
pub struct Turn<Op> {
    pub notify: Option<BlindsState>,
    pub progress: Progress<Op, ()>,
}

/// Whether the room is to be calibrated when the process starts: if its
/// configuration has just been written, or if somebody asked for it. Motors
/// that have lost power since they were configured are worth a warning, not
/// a calibration.
pub fn calibration_due(fresh_config: bool, requested: bool) -> (due: bool)
    ensures
        due == (fresh_config || requested),
{
    fresh_config || requested
}

/// A room of either kind.
#[derive(Debug, PartialEq, Eq)]
pub enum Room {
    LivingRoom(LivingRoomBlinds),
    Bedroom(BedroomBlinds),
}

/// What every room can be asked to do, whatever its mechanics.
///
/// Each operation is begun by a call that returns a [`Turn`] and carried on
/// by [`Blinds::resume`], which takes the answer to the request that the
/// last turn was pending on. A room works on one operation at a time: the
/// host begins the next one when the last has come to its end.
pub trait Blinds: Sized {
    /// An operation of the room under way.
    type Operation;

    /// The state of the blinds.
    spec fn blinds_state(&self) -> BlindsState;

    /// Whether every travel limit of the room is known.
    spec fn is_calibrated(&self) -> bool;

    /// The room after `open` and the turn that `open` returns.
    spec fn spec_open(self) -> (Self, Turn<Self::Operation>);

    /// The room after `close` and the turn that `close` returns.
    spec fn spec_close(self) -> (Self, Turn<Self::Operation>);

    /// The room after `partial_open` and the turn that it returns.
    spec fn spec_partial_open(self, fraction: Fraction) -> (Self, Turn<Self::Operation>);

    /// The room after `toggle` and the turn that `toggle` returns.
    spec fn spec_toggle(self) -> (Self, Turn<Self::Operation>);

    /// The room after `calibrate` and the turn that `calibrate` returns.
    spec fn spec_calibrate(self) -> (Self, Turn<Self::Operation>);

    /// The room after `resume` and the turn that `resume` returns.
    spec fn spec_resume(self, operation: Self::Operation, now_ms: u64, response: Response) -> (
        Self,
        Turn<Self::Operation>,
    );

    /// Whether a travel limit has yet to be learned.
    fn needs_calibration(&self) -> (needed: bool)
        ensures
            needed == !self.is_calibrated(),
    ;

    /// Begins to check whether a motor of the room has lost power since it
    /// was last configured. The check ends with `true` if one has.
    fn were_motors_reset(&self) -> (progress: Progress<MarkerCheck, bool>)
        ensures
            progress is Pending,
    ;

    /// Begins to open the blinds. Open blinds stay as they are and nothing
    /// is asked of the host. All others enter `Opening`; the operation then
    /// goes on if the room is calibrated and ends in an error if it is not.
    fn open(&mut self) -> (turn: Turn<Self::Operation>)
        ensures
            (*final(self), turn) == old(self).spec_open(),
            final(self).is_calibrated() == old(self).is_calibrated(),
            old(self).blinds_state() is Open ==> *final(self) == *old(self) && turn.notify is None
                && turn.progress.result() == Some(Ok::<(), DriverError>(())),
            !(old(self).blinds_state() is Open) ==> final(self).blinds_state() is Opening
                && turn.notify == Some(BlindsState::Opening) && (if old(self).is_calibrated() {
                turn.progress is Pending
            } else {
                turn.progress.result() == Some(
                    Err::<(), DriverError>(DriverError::MissingMotorConfig),
                )
            }),
    ;

    /// Begins to close the blinds. Closed blinds stay as they are and
    /// nothing is asked of the host. All others enter `Closing`; the
    /// operation then goes on if the room is calibrated and ends in an error
    /// if it is not.
    fn close(&mut self) -> (turn: Turn<Self::Operation>)
        ensures
            (*final(self), turn) == old(self).spec_close(),
            final(self).is_calibrated() == old(self).is_calibrated(),
            old(self).blinds_state() is Closed ==> *final(self) == *old(self) && turn.notify
                is None && turn.progress.result() == Some(Ok::<(), DriverError>(())),
            !(old(self).blinds_state() is Closed) ==> final(self).blinds_state() is Closing
                && turn.notify == Some(BlindsState::Closing) && (if old(self).is_calibrated() {
                turn.progress is Pending
            } else {
                turn.progress.result() == Some(
                    Err::<(), DriverError>(DriverError::MissingMotorConfig),
                )
            }),
    ;

    /// Begins to open the blinds part of the way. No operation goes on with
    /// a fraction outside of `[0, 1]`, nor in a room that is not calibrated.
    fn partial_open(&mut self, fraction: Fraction) -> (turn: Turn<Self::Operation>)
        ensures
            (*final(self), turn) == old(self).spec_partial_open(fraction),
            final(self).is_calibrated() == old(self).is_calibrated(),
            turn.progress is Pending ==> fraction.in_unit_interval() && old(self).is_calibrated(),
            turn.progress matches Progress::Finished(result) ==> result is Err,
    ;

    /// Begins to open closed or closing blinds, as by `open`, and to close
    /// all others, as by `close`.
    fn toggle(&mut self) -> (turn: Turn<Self::Operation>)
        ensures
            (*final(self), turn) == old(self).spec_toggle(),
            old(self).spec_toggle() == (if old(self).blinds_state().toggle_target() is Open {
                old(self).spec_open()
            } else {
                old(self).spec_close()
            }),
            final(self).is_calibrated() == old(self).is_calibrated(),
    ;

    /// Begins to calibrate the room, which enters `Other`.
    fn calibrate(&mut self) -> (turn: Turn<Self::Operation>)
        ensures
            (*final(self), turn) == old(self).spec_calibrate(),
            final(self).is_calibrated() == old(self).is_calibrated(),
            final(self).blinds_state() is Other,
            turn.notify == Some(BlindsState::Other),
            turn.progress is Pending,
    ;

    /// Takes the host's answer to the request that `operation` is pending
    /// on and decides what comes next. `now_ms` is the host's clock, in
    /// milliseconds, at the time of the answer. The state of the blinds
    /// changes only to a state that the turn publishes, and a room that is
    /// calibrated stays so.
    fn resume(&mut self, operation: Self::Operation, now_ms: u64, response: Response) -> (turn:
        Turn<Self::Operation>)
        ensures
            (*final(self), turn) == old(self).spec_resume(operation, now_ms, response),
            turn.notify matches Some(state) ==> final(self).blinds_state() == state,
            turn.notify is None ==> final(self).blinds_state() == old(self).blinds_state(),
            old(self).is_calibrated() ==> final(self).is_calibrated(),
    ;
}

/// What an operation did to a room over a run of answers: the room as it
/// stands afterwards, every request made and every state published, in
/// order, and the result if the answers took the operation to its end.
pub struct RoomTrace<Room> {
    pub room: Room,
    pub requests: Seq<Request>,
    pub notices: Seq<BlindsState>,
    pub result: Option<Result<(), DriverError>>,
}

/// The states that a turn publishes: one or none.
pub open spec fn notices_of(notify: Option<BlindsState>) -> Seq<BlindsState> {
    match notify {
        Some(state) => seq![state],
        None => Seq::empty(),
    }
}

/// What a room does with a run of answers, the first of which answers the
/// request that `turn` is pending on. Answers past the end of the operation
/// are not looked at.
pub open spec fn run<Room: Blinds>(
    room: Room,
    turn: Turn<Room::Operation>,
    answers: Seq<Answer>,
) -> RoomTrace<Room>
    decreases answers.len(),
{
    match turn.progress {
        Progress::Finished(result) => RoomTrace {
            room,
            requests: Seq::empty(),
            notices: notices_of(turn.notify),
            result: Some(result),
        },
        Progress::Pending(operation, request) => {
            if answers.len() == 0 {
                RoomTrace {
                    room,
                    requests: seq![request],
                    notices: notices_of(turn.notify),
                    result: None,
                }
            } else {
                let (next_room, next) = room.spec_resume(
                    operation,
                    answers[0].now_ms,
                    answers[0].response,
                );
                let rest = run(next_room, next, answers.drop_first());
                RoomTrace {
                    room: rest.room,
                    requests: seq![request] + rest.requests,
                    notices: notices_of(turn.notify) + rest.notices,
                    result: rest.result,
                }
            }
        },
    }
}

/// A check of one or two motors' indicators for signs of a reboot.
#[derive(Clone, Copy, Debug, PartialEq, Eq, Structural)]
pub struct MarkerCheck {
    /// The motor to ask after the one that is being asked.
    pub next: Option<u8>,
    /// Whether a motor asked so far shows another colour than
    /// [`CALIBRATED_COLOR`].
    pub found_reset: bool,
}

impl MarkerCheck {
    /// The check as it stands when it has just begun.
    pub open spec fn spec_begin(first: u8, next: Option<u8>) -> Progress<MarkerCheck, bool> {
        Progress::Pending(
            MarkerCheck { next, found_reset: false },
            Request::Motor(MotorCommand::QueryIndicator { motor: first }),
        )
    }

    /// Begins to check motor `first` and, after it, motor `next`.
    pub fn begin(first: u8, next: Option<u8>) -> (progress: Progress<MarkerCheck, bool>)
        ensures
            progress == Self::spec_begin(first, next),
    {
        Progress::Pending(
            MarkerCheck { next, found_reset: false },
            Request::Motor(MotorCommand::QueryIndicator { motor: first }),
        )
    }

    /// The decision the check takes on an answer: a colour is compared with
    /// [`CALIBRATED_COLOR`], then the next motor is asked or, after the last,
    /// the check ends and says whether any motor showed another colour. Any
    /// answer that is no colour ends the check with a transport error.
    pub open spec fn spec_resume(self, response: Response) -> Progress<MarkerCheck, bool> {
        match response {
            Response::Indicator(color) => {
                let found_reset = self.found_reset || color != CALIBRATED_COLOR;
                match self.next {
                    Some(motor) => Progress::Pending(
                        MarkerCheck { next: None, found_reset },
                        Request::Motor(MotorCommand::QueryIndicator { motor }),
                    ),
                    None => Progress::Finished(Ok(found_reset)),
                }
            },
            _ => Progress::Finished(Err(DriverError::Transport)),
        }
    }

    /// Takes the host's answer to the pending query and decides what comes
    /// next.
    pub fn resume(self, response: Response) -> (progress: Progress<MarkerCheck, bool>)
        ensures
            progress == self.spec_resume(response),
    {
        match response {
            Response::Indicator(color) => {
                let found_reset = self.found_reset || color != CALIBRATED_COLOR;
                match self.next {
                    Some(motor) => Progress::Pending(
                        MarkerCheck { next: None, found_reset },
                        Request::Motor(MotorCommand::QueryIndicator { motor }),
                    ),
                    None => Progress::Finished(Ok(found_reset)),
                }
            },
            _ => Progress::Finished(Err(DriverError::Transport)),
        }
    }
}

/// A check of two motors asks both, whatever the first one shows, and says
/// that a motor was reset exactly if one of them shows another colour than
/// [`CALIBRATED_COLOR`]. A check of one motor says so exactly if that one
/// does.
pub proof fn lemma_any_other_colour_is_a_reset(
    first: u8,
    second: u8,
    shown_first: LedColor,
    shown_second: LedColor,
)
    ensures
        ({
            let asked = MarkerCheck::spec_begin(first, Some(second))->Pending_0.spec_resume(
                Response::Indicator(shown_first),
            );
            &&& asked is Pending
            &&& asked->Pending_1 == Request::Motor(MotorCommand::QueryIndicator { motor: second })
            &&& asked->Pending_0.spec_resume(Response::Indicator(shown_second))
                == Progress::<MarkerCheck, bool>::Finished(
                Ok(shown_first != CALIBRATED_COLOR || shown_second != CALIBRATED_COLOR),
            )
        }),
        MarkerCheck::spec_begin(first, None)->Pending_0.spec_resume(
            Response::Indicator(shown_first),
        ) == Progress::<MarkerCheck, bool>::Finished(Ok(shown_first != CALIBRATED_COLOR)),
{
}

} // verus!
