//! The room with one motor.
//!
//! The motor lifts the blind and lets it down. The only thing to learn about
//! the room is the top of the blind's travel; the blind rests a little below
//! it when open and far below it when closed.

use crate::config::BedroomBlindsConfig;
use crate::driver::motion::{Drive, MotionPlan};
use crate::driver::motor::MotorCommand;
use crate::driver::protocol::{Progress, Request, Response};
use crate::driver::routine::{begin_script, spec_begin_at, Routine, Script, Task};
use crate::driver::wait::Answer;
use crate::driver::{
    notices_of, run, Blinds, BlindsState, MarkerCheck, RoomTrace, Turn, BEDROOM_BLIND_BOTTOM_OFFSET, BEDROOM_DOOR_TOP_OFFSET,
    BEDROOM_LIFTING_CURRENT_LIMIT, BEDROOM_SLIDING_TIMEOUT_MS, CALIBRATED_COLOR,
    SLIDING_CURRENT_LIMIT, SLIDING_SPEED, UNCALIBRATED_COLOR,
};
use crate::error::DriverError;
use crate::fraction::Fraction;
use vstd::prelude::*;

verus! {

/// The position `offset` away from `position`, held within the range of
/// positions that a motor can be told.
pub open spec fn shifted(position: i32, offset: i32) -> i32 {
    if position + offset > i32::MAX {
        i32::MAX
    } else if position + offset < i32::MIN {
        i32::MIN
    } else {
        (position + offset) as i32
    }
}

/// Computes [`shifted`].
pub fn shift(position: i32, offset: i32) -> (moved: i32)
    ensures
        moved == shifted(position, offset),
{
    let sum: i64 = position as i64 + offset as i64;
    if sum > i32::MAX as i64 {
        i32::MAX
    } else if sum < i32::MIN as i64 {
        i32::MIN
    } else {
        sum as i32
    }
}

/// The motion of the blind to `target`, with the motor limited to
/// `current_limit`.
pub open spec fn lift_plan(motor: u8, target: i32, current_limit: u32) -> MotionPlan {
    MotionPlan {
        motor,
        drive: Drive::Position { target, skip_when_near: false },
        current_limit,
        timeout_ms: BEDROOM_SLIDING_TIMEOUT_MS,
    }
}

/// The motion of the blind upwards until it stalls.
pub open spec fn seek_plan(motor: u8) -> MotionPlan {
    MotionPlan {
        motor,
        drive: Drive::Speed { speed: (-SLIDING_SPEED) as i32 },
        current_limit: BEDROOM_LIFTING_CURRENT_LIMIT,
        timeout_ms: BEDROOM_SLIDING_TIMEOUT_MS,
    }
}

/// The command that caps the motor's speed.
pub open spec fn speed_cap(motor: u8) -> Task {
    Task::Send(MotorCommand::SetMaxSpeed { motor, speed: SLIDING_SPEED })
}

fn plan_lift(motor: u8, target: i32, current_limit: u32) -> (plan: MotionPlan)
    ensures
        plan == lift_plan(motor, target, current_limit),
{
    MotionPlan {
        motor,
        drive: Drive::Position { target, skip_when_near: false },
        current_limit,
        timeout_ms: BEDROOM_SLIDING_TIMEOUT_MS,
    }
}

/// The scripts of the room. `top` is the top of the blind's travel.
#[derive(Clone, Copy, Debug, PartialEq, Eq, Structural)]
pub enum BedroomScript {
    /// Cap the speed, then lift the blind to just below the top.
    Open { motor: u8, top: i32 },
    /// Cap the speed, then let the blind all the way down.
    Close { motor: u8, top: i32 },
    /// Lift the blind until it stalls.
    SeekLimit { motor: u8 },
    /// Store the configuration and mark the motor as configured.
    Store { motor: u8 },
}

impl Script for BedroomScript {
    open spec fn tasks(&self) -> Seq<Task> {
        match *self {
            BedroomScript::Open { motor, top } => seq![
                speed_cap(motor),
                Task::Travel(
                    lift_plan(
                        motor,
                        shifted(top, BEDROOM_DOOR_TOP_OFFSET),
                        BEDROOM_LIFTING_CURRENT_LIMIT,
                    ),
                ),
            ],
            BedroomScript::Close { motor, top } => seq![
                speed_cap(motor),
                Task::Travel(
                    lift_plan(
                        motor,
                        shifted(top, BEDROOM_BLIND_BOTTOM_OFFSET),
                        SLIDING_CURRENT_LIMIT,
                    ),
                ),
            ],
            BedroomScript::SeekLimit { motor } => seq![Task::Travel(seek_plan(motor))],
            BedroomScript::Store { motor } => seq![
                Task::Persist,
                Task::Send(MotorCommand::ConfigureIndicator { motor, color: UNCALIBRATED_COLOR }),
                Task::Send(MotorCommand::SetIndicator { motor, color: CALIBRATED_COLOR }),
            ],
        }
    }

    fn task_at(&self, index: usize) -> (task: Option<Task>) {
        match *self {
            BedroomScript::Open { motor, top } => match index {
                0 => Some(Task::Send(MotorCommand::SetMaxSpeed { motor, speed: SLIDING_SPEED })),
                1 => Some(
                    Task::Travel(
                        plan_lift(
                            motor,
                            shift(top, BEDROOM_DOOR_TOP_OFFSET),
                            BEDROOM_LIFTING_CURRENT_LIMIT,
                        ),
                    ),
                ),
                _ => None,
            },
            BedroomScript::Close { motor, top } => match index {
                0 => Some(Task::Send(MotorCommand::SetMaxSpeed { motor, speed: SLIDING_SPEED })),
                1 => Some(
                    Task::Travel(
                        plan_lift(
                            motor,
                            shift(top, BEDROOM_BLIND_BOTTOM_OFFSET),
                            SLIDING_CURRENT_LIMIT,
                        ),
                    ),
                ),
                _ => None,
            },
            BedroomScript::SeekLimit { motor } => match index {
                0 => Some(
                    Task::Travel(
                        MotionPlan {
                            motor,
                            drive: Drive::Speed { speed: -SLIDING_SPEED },
                            current_limit: BEDROOM_LIFTING_CURRENT_LIMIT,
                            timeout_ms: BEDROOM_SLIDING_TIMEOUT_MS,
                        },
                    ),
                ),
                _ => None,
            },
            BedroomScript::Store { motor } => match index {
                0 => Some(Task::Persist),
                1 => Some(
                    Task::Send(
                        MotorCommand::ConfigureIndicator { motor, color: UNCALIBRATED_COLOR },
                    ),
                ),
                2 => Some(
                    Task::Send(MotorCommand::SetIndicator { motor, color: CALIBRATED_COLOR }),
                ),
                _ => None,
            },
        }
    }
}

/// An operation of the room under way.
#[derive(Debug, PartialEq, Eq)]
pub enum BedroomOperation {
    /// A script is running; when it succeeds the room enters `goal`.
    Scripted { goal: Option<BlindsState>, routine: Routine<BedroomScript> },
    /// Calibration: the blind is on its way to the stop.
    Seeking(Routine<BedroomScript>),
    /// Calibration: the position at the stop is being read.
    Measuring,
    /// Calibration: the top that was learned is being stored.
    Storing(Routine<BedroomScript>),
}

/// The controller of the room: its configuration and the state of its
/// blind. The state starts out as `Other`, since nobody knows where the
/// blind stands when the controller comes up.
#[derive(Debug, PartialEq, Eq)]
pub struct BedroomBlinds {
    pub config: BedroomBlindsConfig,
    pub state: BlindsState,
}

/// The operation that runs `script` towards `goal`, as it stands when it has
/// just begun.
pub open spec fn launched(goal: Option<BlindsState>, script: BedroomScript) -> Progress<
    BedroomOperation,
    (),
> {
    match spec_begin_at(script, 0) {
        Progress::Pending(routine, request) => Progress::Pending(
            BedroomOperation::Scripted { goal, routine },
            request,
        ),
        Progress::Finished(result) => Progress::Finished(result),
    }
}

fn launch(goal: Option<BlindsState>, script: BedroomScript) -> (progress: Progress<
    BedroomOperation,
    (),
>)
    ensures
        progress == launched(goal, script),
{
    match begin_script(script) {
        Progress::Pending(routine, request) => Progress::Pending(
            BedroomOperation::Scripted { goal, routine },
            request,
        ),
        Progress::Finished(result) => Progress::Finished(result),
    }
}

impl BedroomBlinds {
    /// The room in another state.
    pub open spec fn entering(self, state: BlindsState) -> BedroomBlinds {
        BedroomBlinds { config: self.config, state }
    }

    /// The room with the top of its travel known.
    pub open spec fn with_top(self, top: i32) -> BedroomBlinds {
        BedroomBlinds {
            config: BedroomBlindsConfig { top_position: Some(top), ..self.config },
            state: self.state,
        }
    }

    /// A turn that changes nothing and ends the operation.
    pub open spec fn ended(result: Result<(), DriverError>) -> Turn<BedroomOperation> {
        Turn { notify: None, progress: Progress::Finished(result) }
    }

    /// A controller for the room that `config` describes, and the command
    /// with which the host starts: the release of all motors.
    pub fn new(config: BedroomBlindsConfig) -> (created: (BedroomBlinds, MotorCommand))
        ensures
            created.0.config == config,
            created.0.state is Other,
            created.1 == (MotorCommand::Release { motor: crate::driver::motor::BROADCAST_ID }),
    {
        (
            BedroomBlinds { config, state: BlindsState::Other },
            MotorCommand::Release { motor: crate::driver::motor::BROADCAST_ID },
        )
    }

    /// The state of the blind.
    pub fn state(&self) -> (state: BlindsState)
        ensures
            state == self.state,
    {
        self.state
    }

}

impl Blinds for BedroomBlinds {
    type Operation = BedroomOperation;

    open spec fn blinds_state(&self) -> BlindsState {
        self.state
    }

    open spec fn is_calibrated(&self) -> bool {
        !self.config.needs_calibration()
    }

    /// What `open` does to the room and hands back.
    ///
    /// An open blind stays as it is and nothing is asked of the host.
    /// Otherwise the room enters `Opening`; if it is not calibrated the
    /// operation ends there, and if it is, the opening script begins and
    /// will take the room to `Open`.
    open spec fn spec_open(self) -> (BedroomBlinds, Turn<BedroomOperation>) {
        if self.state is Open {
            (self, Self::ended(Ok(())))
        } else {
            (
                self.entering(BlindsState::Opening),
                Turn {
                    notify: Some(BlindsState::Opening),
                    progress: match self.config.top_position {
                        Some(top) => launched(
                            Some(BlindsState::Open),
                            BedroomScript::Open { motor: self.config.motor_id, top },
                        ),
                        None => Progress::Finished(Err(DriverError::MissingMotorConfig)),
                    },
                },
            )
        }
    }

    /// What `close` does to the room and hands back: as `open`, with
    /// `Closed`, `Closing` and the closing script.
    open spec fn spec_close(self) -> (BedroomBlinds, Turn<BedroomOperation>) {
        if self.state is Closed {
            (self, Self::ended(Ok(())))
        } else {
            (
                self.entering(BlindsState::Closing),
                Turn {
                    notify: Some(BlindsState::Closing),
                    progress: match self.config.top_position {
                        Some(top) => launched(
                            Some(BlindsState::Closed),
                            BedroomScript::Close { motor: self.config.motor_id, top },
                        ),
                        None => Progress::Finished(Err(DriverError::MissingMotorConfig)),
                    },
                },
            )
        }
    }

    /// What `partial_open` does: it refuses, for the room has a blind and
    /// no louvers, and a blind is open or closed.
    open spec fn spec_partial_open(self, fraction: Fraction) -> (
        BedroomBlinds,
        Turn<BedroomOperation>,
    ) {
        (self, Self::ended(Err(DriverError::PartialPositionUnsupported)))
    }

    /// What `toggle` does: a closed or closing blind is opened, any other
    /// is closed.
    open spec fn spec_toggle(self) -> (BedroomBlinds, Turn<BedroomOperation>) {
        if self.state.toggle_target() is Open {
            self.spec_open()
        } else {
            self.spec_close()
        }
    }

    /// What `calibrate` does to the room and hands back: the room enters
    /// `Other` and the blind sets out for the stop.
    open spec fn spec_calibrate(self) -> (BedroomBlinds, Turn<BedroomOperation>) {
        (
            self.entering(BlindsState::Other),
            Turn {
                notify: Some(BlindsState::Other),
                progress: match spec_begin_at(
                    BedroomScript::SeekLimit { motor: self.config.motor_id },
                    0,
                ) {
                    Progress::Pending(routine, request) => Progress::Pending(
                        BedroomOperation::Seeking(routine),
                        request,
                    ),
                    Progress::Finished(result) => Progress::Finished(result),
                },
            },
        )
    }

    /// What `resume` does to the room and hands back.
    ///
    /// A script goes on as it decides. When it succeeds the room enters the
    /// goal of the operation, if it has one; when it fails the room stays in
    /// the state it is in. A calibration reads the position once the blind
    /// has stalled; that position and the top offset give the top of the
    /// travel, which is stored. After that the room is opened, as by `open`.
    open spec fn spec_resume(
        self,
        operation: BedroomOperation,
        now_ms: u64,
        response: Response,
    ) -> (BedroomBlinds, Turn<BedroomOperation>) {
        match operation {
            BedroomOperation::Scripted { goal, routine } => match routine.spec_resume(
                now_ms,
                response,
            ) {
                Progress::Pending(routine, request) => (
                    self,
                    Turn {
                        notify: None,
                        progress: Progress::Pending(
                            BedroomOperation::Scripted { goal, routine },
                            request,
                        ),
                    },
                ),
                Progress::Finished(Ok(_)) => match goal {
                    Some(state) => (
                        self.entering(state),
                        Turn { notify: Some(state), progress: Progress::Finished(Ok(())) },
                    ),
                    None => (self, Self::ended(Ok(()))),
                },
                Progress::Finished(Err(error)) => (self, Self::ended(Err(error))),
            },
            BedroomOperation::Seeking(routine) => match routine.spec_resume(now_ms, response) {
                Progress::Pending(routine, request) => (
                    self,
                    Turn {
                        notify: None,
                        progress: Progress::Pending(BedroomOperation::Seeking(routine), request),
                    },
                ),
                Progress::Finished(Ok(_)) => (
                    self,
                    Turn {
                        notify: None,
                        progress: Progress::Pending(
                            BedroomOperation::Measuring,
                            Request::Motor(
                                MotorCommand::QueryPosition { motor: self.config.motor_id },
                            ),
                        ),
                    },
                ),
                Progress::Finished(Err(error)) => (self, Self::ended(Err(error))),
            },
            BedroomOperation::Measuring => match response {
                Response::Position(stalled) => (
                    self.with_top(shifted(stalled, BEDROOM_DOOR_TOP_OFFSET)),
                    Turn {
                        notify: None,
                        progress: match spec_begin_at(
                            BedroomScript::Store { motor: self.config.motor_id },
                            0,
                        ) {
                            Progress::Pending(routine, request) => Progress::Pending(
                                BedroomOperation::Storing(routine),
                                request,
                            ),
                            Progress::Finished(result) => Progress::Finished(result),
                        },
                    },
                ),
                _ => (self, Self::ended(Err(DriverError::Transport))),
            },
            BedroomOperation::Storing(routine) => match routine.spec_resume(now_ms, response) {
                Progress::Pending(routine, request) => (
                    self,
                    Turn {
                        notify: None,
                        progress: Progress::Pending(BedroomOperation::Storing(routine), request),
                    },
                ),
                Progress::Finished(Ok(_)) => self.spec_open(),
                Progress::Finished(Err(error)) => (self, Self::ended(Err(error))),
            },
        }
    }

    /// Whether the top of the travel has yet to be learned.
    fn needs_calibration(&self) -> (needed: bool)
        ensures
            needed == self.config.needs_calibration(),
            needed == (self.config.top_position is None),
    {
        self.config.top_position.is_none()
    }

    /// Begins to check whether the motor has lost power since it was last
    /// configured.
    fn were_motors_reset(&self) -> (progress: Progress<MarkerCheck, bool>)
        ensures
            progress == MarkerCheck::spec_begin(self.config.motor_id, None),
    {
        MarkerCheck::begin(self.config.motor_id, None)
    }

    /// Begins to open the blind.
    fn open(&mut self) -> (turn: Turn<BedroomOperation>)
        ensures
            (*final(self), turn) == old(self).spec_open(),
            old(self).state is Open ==> *final(self) == *old(self) && turn.notify is None
                && turn.progress == Progress::<BedroomOperation, ()>::Finished(Ok(())),
            final(self).config == old(self).config,
            turn.notify matches Some(state) ==> final(self).state == state,
            turn.notify is None ==> final(self).state == old(self).state,
    {
        if self.state == BlindsState::Open {
            return Turn { notify: None, progress: Progress::Finished(Ok(())) };
        }
        self.state = BlindsState::Opening;
        let progress = match self.config.top_position {
            Some(top) => launch(
                Some(BlindsState::Open),
                BedroomScript::Open { motor: self.config.motor_id, top },
            ),
            None => Progress::Finished(Err(DriverError::MissingMotorConfig)),
        };
        Turn { notify: Some(BlindsState::Opening), progress }
    }

    /// Begins to close the blind.
    fn close(&mut self) -> (turn: Turn<BedroomOperation>)
        ensures
            (*final(self), turn) == old(self).spec_close(),
            old(self).state is Closed ==> *final(self) == *old(self) && turn.notify is None
                && turn.progress == Progress::<BedroomOperation, ()>::Finished(Ok(())),
            final(self).config == old(self).config,
    {
        if self.state == BlindsState::Closed {
            return Turn { notify: None, progress: Progress::Finished(Ok(())) };
        }
        self.state = BlindsState::Closing;
        let progress = match self.config.top_position {
            Some(top) => launch(
                Some(BlindsState::Closed),
                BedroomScript::Close { motor: self.config.motor_id, top },
            ),
            None => Progress::Finished(Err(DriverError::MissingMotorConfig)),
        };
        Turn { notify: Some(BlindsState::Closing), progress }
    }

    /// Refuses: the room has a blind and no louvers, and a blind is open or
    /// closed. Nothing changes and nothing is asked of the host.
    fn partial_open(&mut self, fraction: Fraction) -> (turn: Turn<BedroomOperation>)
        ensures
            *final(self) == *old(self),
            turn.notify is None,
            turn.progress == Progress::<BedroomOperation, ()>::Finished(
                Err(DriverError::PartialPositionUnsupported),
            ),
    {
        Turn {
            notify: None,
            progress: Progress::Finished(Err(DriverError::PartialPositionUnsupported)),
        }
    }

    /// Begins to open a closed blind, or to close an open one.
    fn toggle(&mut self) -> (turn: Turn<BedroomOperation>)
        ensures
            (*final(self), turn) == old(self).spec_toggle(),
            final(self).config == old(self).config,
    {
        match self.state.toggles_to() {
            BlindsState::Open => self.open(),
            _ => self.close(),
        }
    }

    /// Begins to calibrate the room.
    fn calibrate(&mut self) -> (turn: Turn<BedroomOperation>)
        ensures
            (*final(self), turn) == old(self).spec_calibrate(),
            final(self).config == old(self).config,
    {
        self.state = BlindsState::Other;
        let progress = match begin_script(BedroomScript::SeekLimit { motor: self.config.motor_id }) {
            Progress::Pending(routine, request) => Progress::Pending(
                BedroomOperation::Seeking(routine),
                request,
            ),
            Progress::Finished(result) => Progress::Finished(result),
        };
        Turn { notify: Some(BlindsState::Other), progress }
    }

    /// Takes the host's answer to the request that `operation` is pending
    /// on and decides what comes next. `now_ms` is the host's clock at the
    /// time of the answer.
    fn resume(&mut self, operation: BedroomOperation, now_ms: u64, response: Response) -> (turn:
        Turn<BedroomOperation>)
        ensures
            (*final(self), turn) == old(self).spec_resume(operation, now_ms, response),
            turn.notify matches Some(state) ==> final(self).state == state,
            turn.notify is None ==> final(self).state == old(self).state,
            final(self).config != old(self).config ==> operation is Measuring
                && !final(self).config.needs_calibration(),
    {
        match operation {
            BedroomOperation::Scripted { goal, routine } => match routine.resume(
                now_ms,
                response,
            ) {
                Progress::Pending(routine, request) => Turn {
                    notify: None,
                    progress: Progress::Pending(
                        BedroomOperation::Scripted { goal, routine },
                        request,
                    ),
                },
                Progress::Finished(Ok(_)) => {
                    if let Some(state) = goal {
                        self.state = state;
                    }
                    Turn { notify: goal, progress: Progress::Finished(Ok(())) }
                },
                Progress::Finished(Err(error)) => Turn {
                    notify: None,
                    progress: Progress::Finished(Err(error)),
                },
            },
            BedroomOperation::Seeking(routine) => match routine.resume(now_ms, response) {
                Progress::Pending(routine, request) => Turn {
                    notify: None,
                    progress: Progress::Pending(BedroomOperation::Seeking(routine), request),
                },
                Progress::Finished(Ok(_)) => Turn {
                    notify: None,
                    progress: Progress::Pending(
                        BedroomOperation::Measuring,
                        Request::Motor(MotorCommand::QueryPosition { motor: self.config.motor_id }),
                    ),
                },
                Progress::Finished(Err(error)) => Turn {
                    notify: None,
                    progress: Progress::Finished(Err(error)),
                },
            },
            BedroomOperation::Measuring => match response {
                Response::Position(stalled) => {
                    self.config.top_position = Some(shift(stalled, BEDROOM_DOOR_TOP_OFFSET));
                    let progress = match begin_script(
                        BedroomScript::Store { motor: self.config.motor_id },
                    ) {
                        Progress::Pending(routine, request) => Progress::Pending(
                            BedroomOperation::Storing(routine),
                            request,
                        ),
                        Progress::Finished(result) => Progress::Finished(result),
                    };
                    Turn { notify: None, progress }
                },
                _ => Turn { notify: None, progress: Progress::Finished(Err(DriverError::Transport)) },
            },
            BedroomOperation::Storing(routine) => match routine.resume(now_ms, response) {
                Progress::Pending(routine, request) => Turn {
                    notify: None,
                    progress: Progress::Pending(BedroomOperation::Storing(routine), request),
                },
                Progress::Finished(Ok(_)) => self.open(),
                Progress::Finished(Err(error)) => Turn {
                    notify: None,
                    progress: Progress::Finished(Err(error)),
                },
            },
        }
    }
}

impl BedroomBlinds {
    /// Whether the operation that `turn` belongs to is on its way to `goal`
    /// and has nothing to learn about the room: it runs a script towards
    /// that goal, or it has failed, or it has succeeded and the room is
    /// there.
    pub open spec fn heading(self, turn: Turn<BedroomOperation>, goal: BlindsState) -> bool {
        match turn.progress {
            Progress::Pending(BedroomOperation::Scripted { goal: aim, .. }, _) => aim == Some(goal),
            Progress::Pending(_, _) => false,
            Progress::Finished(Ok(_)) => self.state == goal,
            Progress::Finished(Err(_)) => true,
        }
    }

    /// Whether the operation that `turn` belongs to is a calibration in
    /// order: until the position at the stop has been read, nothing is said
    /// of the room; from then on the room is calibrated, and when the
    /// calibration has succeeded the blind is open.
    pub open spec fn calibrating(self, turn: Turn<BedroomOperation>) -> bool {
        match turn.progress {
            Progress::Pending(BedroomOperation::Seeking(_), _) => self.state is Other,
            Progress::Pending(BedroomOperation::Measuring, _) => self.state is Other,
            Progress::Pending(BedroomOperation::Storing(_), _) => self.state is Other
                && !self.config.needs_calibration(),
            Progress::Pending(BedroomOperation::Scripted { goal, .. }, _) => goal == Some(
                BlindsState::Open,
            ) && !self.config.needs_calibration(),
            Progress::Finished(Ok(_)) => self.state is Open && !self.config.needs_calibration(),
            Progress::Finished(Err(_)) => true,
        }
    }
}

/// An operation on its way to a goal leaves the configuration alone. If it
/// succeeds the room is at the goal; until then, and if it fails, the room
/// stays in the state in which the operation found it.
pub proof fn lemma_run_towards_goal(
    room: BedroomBlinds,
    turn: Turn<BedroomOperation>,
    goal: BlindsState,
    answers: Seq<Answer>,
)
    requires
        room.heading(turn, goal),
    ensures
        ({
            let trace = run(room, turn, answers);
            &&& trace.room.config == room.config
            &&& trace.result == Some(Ok::<(), DriverError>(())) ==> trace.room.state == goal
            &&& trace.result != Some(Ok::<(), DriverError>(())) ==> trace.room.state
                == room.state
        }),
    decreases answers.len(),
{
    if let Progress::Pending(operation, _) = turn.progress {
        if answers.len() > 0 {
            let (next_room, next) = room.spec_resume(
                operation,
                answers[0].now_ms,
                answers[0].response,
            );
            lemma_run_towards_goal(next_room, next, goal, answers.drop_first());
        }
    }
}

/// Opening twice moves the blind once: after an `open` that succeeded, the
/// next `open` changes nothing, asks nothing of the host and publishes
/// nothing, whatever the host would answer.
pub proof fn lemma_open_is_idempotent(
    room: BedroomBlinds,
    answers: Seq<Answer>,
    later: Seq<Answer>,
)
    requires
        run(room.spec_open().0, room.spec_open().1, answers).result == Some(
            Ok::<(), DriverError>(()),
        ),
    ensures
        ({
            let first = run(room.spec_open().0, room.spec_open().1, answers);
            let again = first.room.spec_open();
            let second = run(again.0, again.1, later);
            &&& first.room.state is Open
            &&& again.0 == first.room
            &&& second.room == first.room
            &&& second.requests.len() == 0
            &&& second.notices.len() == 0
            &&& second.result == Some(Ok::<(), DriverError>(()))
        }),
{
    let (opening, turn) = room.spec_open();
    lemma_run_towards_goal(opening, turn, BlindsState::Open, answers);
}

/// Closing twice moves the blind once: after a `close` that succeeded, the
/// next `close` changes nothing, asks nothing of the host and publishes
/// nothing, whatever the host would answer.
pub proof fn lemma_close_is_idempotent(
    room: BedroomBlinds,
    answers: Seq<Answer>,
    later: Seq<Answer>,
)
    requires
        run(room.spec_close().0, room.spec_close().1, answers).result == Some(
            Ok::<(), DriverError>(()),
        ),
    ensures
        ({
            let first = run(room.spec_close().0, room.spec_close().1, answers);
            let again = first.room.spec_close();
            let second = run(again.0, again.1, later);
            &&& first.room.state is Closed
            &&& again.0 == first.room
            &&& second.room == first.room
            &&& second.requests.len() == 0
            &&& second.notices.len() == 0
            &&& second.result == Some(Ok::<(), DriverError>(()))
        }),
{
    let (closing, turn) = room.spec_close();
    lemma_run_towards_goal(closing, turn, BlindsState::Closed, answers);
}

/// An `open` or a `close` that fails leaves the room in the transitional
/// state it entered, and so does one that has not come to its end; only a
/// blind that was at the goal already stays there.
pub proof fn lemma_failure_stays_transitional(room: BedroomBlinds, answers: Seq<Answer>)
    ensures
        ({
            let opened = run(room.spec_open().0, room.spec_open().1, answers);
            let closed = run(room.spec_close().0, room.spec_close().1, answers);
            &&& opened.result != Some(Ok::<(), DriverError>(())) ==> opened.room.state
                is Opening
            &&& closed.result != Some(Ok::<(), DriverError>(())) ==> closed.room.state
                is Closing
        }),
{
    let (opening, turn) = room.spec_open();
    lemma_run_towards_goal(opening, turn, BlindsState::Open, answers);
    let (closing, turn) = room.spec_close();
    lemma_run_towards_goal(closing, turn, BlindsState::Closed, answers);
}

/// A `toggle` that succeeds leaves a closed or closing blind open and any
/// other closed: from `Closed` the room arrives at `Open`, from `Open` at
/// `Closed`, and from `Other`, where nobody knows how the blind stands, at
/// `Closed` as well. The configuration stays as it is.
pub proof fn lemma_toggle_reaches_target(room: BedroomBlinds, answers: Seq<Answer>)
    ensures
        ({
            let trace = run(room.spec_toggle().0, room.spec_toggle().1, answers);
            &&& trace.room.config == room.config
            &&& trace.result == Some(Ok::<(), DriverError>(())) ==> {
                &&& trace.room.state == room.state.toggle_target()
                &&& room.state is Closed ==> trace.room.state is Open
                &&& room.state is Open ==> trace.room.state is Closed
                &&& room.state is Other ==> trace.room.state is Closed
            }
        }),
{
    let (next, turn) = room.spec_toggle();
    lemma_run_towards_goal(next, turn, room.state.toggle_target(), answers);
}

proof fn lemma_run_of_calibration(
    room: BedroomBlinds,
    turn: Turn<BedroomOperation>,
    answers: Seq<Answer>,
)
    requires
        room.calibrating(turn),
    ensures
        ({
            let trace = run(room, turn, answers);
            &&& trace.room.config == room.config || !trace.room.config.needs_calibration()
            &&& trace.room.config != room.config ==> trace.requests.contains(Request::Persist)
            &&& trace.result == Some(Ok::<(), DriverError>(())) ==> trace.room.state is Open
                && !trace.room.config.needs_calibration()
        }),
    decreases answers.len(),
{
    if let Progress::Pending(operation, request) = turn.progress {
        if answers.len() > 0 {
            let (next_room, next) = room.spec_resume(
                operation,
                answers[0].now_ms,
                answers[0].response,
            );
            let rest = run(next_room, next, answers.drop_first());
            lemma_run_of_calibration(next_room, next, answers.drop_first());
            let requests = seq![request] + rest.requests;
            if rest.requests.contains(Request::Persist) {
                let at = choose|at: int|
                    0 <= at < rest.requests.len() && rest.requests[at] == Request::Persist;
                assert(requests[at + 1] == Request::Persist);
            }
            if next_room.config != room.config {
                assert(rest.requests[0] == Request::Persist);
                assert(requests[1] == Request::Persist);
            }
        }
    }
}

/// The top of the travel changes at most once during a calibration, when
/// the position at the stop has been read, and is set from then on. A
/// calibration that succeeds leaves the room calibrated and the blind open,
/// and one that fails before it has asked for the configuration to be
/// stored leaves the configuration as it was.
pub proof fn lemma_calibration_calibrates(room: BedroomBlinds, answers: Seq<Answer>)
    ensures
        ({
            let trace = run(room.spec_calibrate().0, room.spec_calibrate().1, answers);
            &&& trace.room.config == room.config || !trace.room.config.needs_calibration()
            &&& trace.room.config != room.config ==> trace.requests.contains(Request::Persist)
            &&& trace.result == Some(Ok::<(), DriverError>(())) ==> trace.room.state is Open
                && !trace.room.config.needs_calibration()
        }),
{
    let (next, turn) = room.spec_calibrate();
    lemma_run_of_calibration(next, turn, answers);
}

/// Every change of state is published: at the end of a run the room is in
/// the state that was published last or, if none was, in the state in which
/// the run found it.
pub proof fn lemma_state_is_what_was_published(
    room: BedroomBlinds,
    turn: Turn<BedroomOperation>,
    answers: Seq<Answer>,
)
    requires
        turn.notify is Some ==> room.state == turn.notify->Some_0,
    ensures
        ({
            let trace = run(room, turn, answers);
            if trace.notices.len() > 0 {
                trace.room.state == trace.notices.last()
            } else {
                turn.notify is None && trace.room.state == room.state
            }
        }),
    decreases answers.len(),
{
    if let Progress::Pending(operation, _) = turn.progress {
        if answers.len() > 0 {
            let (next_room, next) = room.spec_resume(
                operation,
                answers[0].now_ms,
                answers[0].response,
            );
            lemma_state_is_what_was_published(next_room, next, answers.drop_first());
            let rest = run(next_room, next, answers.drop_first());
            let notices = notices_of(turn.notify) + rest.notices;
            if rest.notices.len() > 0 {
                assert(notices.last() == rest.notices.last());
            } else {
                assert(notices =~= notices_of(turn.notify));
            }
        }
    }
}

} // verus!
