//! The room with two motors.
//!
//! The slide motor moves the blinds along the window until it stalls against
//! the stop at either end. The flip motor turns the louvers: at the centre of
//! its travel they stand open, at the left end they are closed. The louvers
//! must stand open while the blinds slide, so every slide is preceded by a
//! flip to the centre.

use crate::config::{midpoint, midpoint_of, LivingRoomBlindsConfig};
use crate::driver::calibration::{Bounds, FlipperCalibration};
use crate::driver::motion::{Drive, Motion, MotionPlan};
use crate::driver::motor::{MotorCommand, BROADCAST_ID};
use crate::driver::protocol::{Progress, Request, Response};
use crate::driver::routine::{begin_script, spec_begin_at, Routine, Script, Task};
use crate::driver::wait::Answer;
use crate::driver::{
    notices_of, run, Blinds, BlindsState, MarkerCheck, RoomTrace, Turn, CALIBRATED_COLOR, LIVING_ROOM_FLIPPER_TIMEOUT_MS,
    LIVING_ROOM_SLIDING_TIMEOUT_MS, RESET_PAUSE_MS, SLIDING_CURRENT_LIMIT, SLIDING_SPEED,
    UNCALIBRATED_COLOR,
};
use crate::error::DriverError;
use crate::fraction::{interpolate, partial_position, Fraction};
use vstd::prelude::*;

verus! {

/// The motion of the flip motor to `target`.
pub open spec fn flip_plan(flip: u8, target: i32, skip_when_near: bool) -> MotionPlan {
    MotionPlan {
        motor: flip,
        drive: Drive::Position { target, skip_when_near },
        current_limit: SLIDING_CURRENT_LIMIT,
        timeout_ms: LIVING_ROOM_FLIPPER_TIMEOUT_MS,
    }
}

/// The motion of the slide motor at `speed` until it stalls.
pub open spec fn slide_plan(slide: u8, speed: i32) -> MotionPlan {
    MotionPlan {
        motor: slide,
        drive: Drive::Speed { speed },
        current_limit: SLIDING_CURRENT_LIMIT,
        timeout_ms: LIVING_ROOM_SLIDING_TIMEOUT_MS,
    }
}

fn plan_flip(flip: u8, target: i32, skip_when_near: bool) -> (plan: MotionPlan)
    ensures
        plan == flip_plan(flip, target, skip_when_near),
{
    MotionPlan {
        motor: flip,
        drive: Drive::Position { target, skip_when_near },
        current_limit: SLIDING_CURRENT_LIMIT,
        timeout_ms: LIVING_ROOM_FLIPPER_TIMEOUT_MS,
    }
}

fn plan_slide(slide: u8, speed: i32) -> (plan: MotionPlan)
    ensures
        plan == slide_plan(slide, speed),
{
    MotionPlan {
        motor: slide,
        drive: Drive::Speed { speed },
        current_limit: SLIDING_CURRENT_LIMIT,
        timeout_ms: LIVING_ROOM_SLIDING_TIMEOUT_MS,
    }
}

/// The scripts of the room. `flip` and `slide` are the motors, `center` and
/// `left` the positions of the flip motor at which the louvers stand open
/// and closed.
#[derive(Clone, Copy, Debug, PartialEq, Eq, Structural)]
pub enum LivingRoomScript {
    /// Louvers to the centre, then slide open.
    Open { flip: u8, slide: u8, center: i32 },
    /// Louvers to the centre, slide closed, then louvers to the left end.
    Close { flip: u8, slide: u8, center: i32, left: i32 },
    /// Louvers to `target`. From open blinds, slide closed first.
    Partial { flip: u8, slide: u8, center: i32, target: i32, from_open: bool },
    /// What follows a calibration: store the configuration, mark the motors
    /// as configured, and close the blinds.
    Settle { flip: u8, slide: u8, center: i32, left: i32 },
    /// Restart all motors and give them time to come back.
    Reset,
}

/// The three motions that close the blinds.
pub open spec fn close_sequence(flip: u8, slide: u8, center: i32, left: i32) -> Seq<Task> {
    seq![
        Task::Travel(flip_plan(flip, center, true)),
        Task::Travel(slide_plan(slide, SLIDING_SPEED)),
        Task::Travel(flip_plan(flip, left, false)),
    ]
}

impl Script for LivingRoomScript {
    open spec fn tasks(&self) -> Seq<Task> {
        match *self {
            LivingRoomScript::Open { flip, slide, center } => seq![
                Task::Travel(flip_plan(flip, center, true)),
                Task::Travel(slide_plan(slide, (-SLIDING_SPEED) as i32)),
            ],
            LivingRoomScript::Close { flip, slide, center, left } => close_sequence(
                flip,
                slide,
                center,
                left,
            ),
            LivingRoomScript::Partial { flip, slide, center, target, from_open } => {
                if from_open {
                    seq![
                        Task::Travel(flip_plan(flip, center, true)),
                        Task::Travel(slide_plan(slide, SLIDING_SPEED)),
                        Task::Travel(flip_plan(flip, target, true)),
                    ]
                } else {
                    seq![Task::Travel(flip_plan(flip, target, true))]
                }
            },
            LivingRoomScript::Settle { flip, slide, center, left } => seq![
                Task::Persist,
                Task::Send(
                    MotorCommand::ConfigureIndicator {
                        motor: BROADCAST_ID,
                        color: UNCALIBRATED_COLOR,
                    },
                ),
                Task::Send(
                    MotorCommand::SetIndicator { motor: BROADCAST_ID, color: CALIBRATED_COLOR },
                ),
            ] + close_sequence(flip, slide, center, left),
            LivingRoomScript::Reset => seq![
                Task::Send(MotorCommand::Reset { motor: BROADCAST_ID }),
                Task::Pause { millis: RESET_PAUSE_MS },
            ],
        }
    }

    fn task_at(&self, index: usize) -> (task: Option<Task>) {
        match *self {
            LivingRoomScript::Open { flip, slide, center } => match index {
                0 => Some(Task::Travel(plan_flip(flip, center, true))),
                1 => Some(Task::Travel(plan_slide(slide, -SLIDING_SPEED))),
                _ => None,
            },
            LivingRoomScript::Close { flip, slide, center, left } => match index {
                0 => Some(Task::Travel(plan_flip(flip, center, true))),
                1 => Some(Task::Travel(plan_slide(slide, SLIDING_SPEED))),
                2 => Some(Task::Travel(plan_flip(flip, left, false))),
                _ => None,
            },
            LivingRoomScript::Partial { flip, slide, center, target, from_open } => {
                if from_open {
                    match index {
                        0 => Some(Task::Travel(plan_flip(flip, center, true))),
                        1 => Some(Task::Travel(plan_slide(slide, SLIDING_SPEED))),
                        2 => Some(Task::Travel(plan_flip(flip, target, true))),
                        _ => None,
                    }
                } else {
                    match index {
                        0 => Some(Task::Travel(plan_flip(flip, target, true))),
                        _ => None,
                    }
                }
            },
            LivingRoomScript::Settle { flip, slide, center, left } => match index {
                0 => Some(Task::Persist),
                1 => Some(
                    Task::Send(
                        MotorCommand::ConfigureIndicator {
                            motor: BROADCAST_ID,
                            color: UNCALIBRATED_COLOR,
                        },
                    ),
                ),
                2 => Some(
                    Task::Send(
                        MotorCommand::SetIndicator {
                            motor: BROADCAST_ID,
                            color: CALIBRATED_COLOR,
                        },
                    ),
                ),
                3 => Some(Task::Travel(plan_flip(flip, center, true))),
                4 => Some(Task::Travel(plan_slide(slide, SLIDING_SPEED))),
                5 => Some(Task::Travel(plan_flip(flip, left, false))),
                _ => None,
            },
            LivingRoomScript::Reset => match index {
                0 => Some(Task::Send(MotorCommand::Reset { motor: BROADCAST_ID })),
                1 => Some(Task::Pause { millis: RESET_PAUSE_MS }),
                _ => None,
            },
        }
    }
}

/// An operation of the room under way.
#[derive(Debug, PartialEq, Eq)]
pub enum LivingRoomOperation {
    /// A script is running; when it succeeds the room enters `goal`.
    Scripted { goal: Option<BlindsState>, routine: Routine<LivingRoomScript> },
    /// The travel of the flip motor is being learned.
    Learning(FlipperCalibration),
}

/// The controller of the room: its configuration and the state of its
/// blinds. The state starts out as `Other`, since nobody knows where the
/// blinds stand when the controller comes up.
#[derive(Debug, PartialEq, Eq)]
pub struct LivingRoomBlinds {
    pub config: LivingRoomBlindsConfig,
    pub state: BlindsState,
}

/// The operation that runs `script` towards `goal`, as it stands when it has
/// just begun.
pub open spec fn launched(goal: Option<BlindsState>, script: LivingRoomScript) -> Progress<
    LivingRoomOperation,
    (),
> {
    match spec_begin_at(script, 0) {
        Progress::Pending(routine, request) => Progress::Pending(
            LivingRoomOperation::Scripted { goal, routine },
            request,
        ),
        Progress::Finished(result) => Progress::Finished(result),
    }
}

fn launch(goal: Option<BlindsState>, script: LivingRoomScript) -> (progress: Progress<
    LivingRoomOperation,
    (),
>)
    ensures
        progress == launched(goal, script),
{
    match begin_script(script) {
        Progress::Pending(routine, request) => Progress::Pending(
            LivingRoomOperation::Scripted { goal, routine },
            request,
        ),
        Progress::Finished(result) => Progress::Finished(result),
    }
}

impl LivingRoomBlinds {
    /// The room in another state.
    pub open spec fn entering(self, state: BlindsState) -> LivingRoomBlinds {
        LivingRoomBlinds { config: self.config, state }
    }

    /// The room with the travel of its flip motor known.
    pub open spec fn with_bounds(self, bounds: Bounds) -> LivingRoomBlinds {
        LivingRoomBlinds {
            config: LivingRoomBlindsConfig {
                flip_motor_left: Some(bounds.left),
                flip_motor_right: Some(bounds.right),
                ..self.config
            },
            state: self.state,
        }
    }

    /// A turn that changes nothing and ends the operation.
    pub open spec fn ended(result: Result<(), DriverError>) -> Turn<LivingRoomOperation> {
        Turn { notify: None, progress: Progress::Finished(result) }
    }

    /// The script that opens the blinds, if the room is calibrated.
    pub open spec fn open_script(self) -> Option<LivingRoomScript> {
        match self.config.spec_flip_motor_center() {
            Some(center) => Some(
                LivingRoomScript::Open {
                    flip: self.config.flip_motor_id,
                    slide: self.config.slide_motor_id,
                    center,
                },
            ),
            None => None,
        }
    }

    /// The script that closes the blinds, if the room is calibrated.
    pub open spec fn close_script(self) -> Option<LivingRoomScript> {
        match self.config.spec_flip_motor_center() {
            Some(center) => Some(
                LivingRoomScript::Close {
                    flip: self.config.flip_motor_id,
                    slide: self.config.slide_motor_id,
                    center,
                    left: self.config.flip_motor_left->Some_0,
                },
            ),
            None => None,
        }
    }

    /// The position of the flip motor at which the louvers are open by
    /// `fraction`: that far from the left end towards the centre.
    pub open spec fn partial_target(self, fraction: Fraction) -> int {
        interpolate(
            self.config.flip_motor_left->Some_0 as int,
            self.config.spec_flip_motor_center()->Some_0 as int,
            fraction.millionths as int,
        )
    }

    /// The script that opens the louvers by `fraction`, or the reason why
    /// there is none: the fraction is out of range or, if it is not, the
    /// room is not calibrated.
    pub open spec fn partial_script(self, fraction: Fraction) -> Result<
        LivingRoomScript,
        DriverError,
    > {
        if !fraction.in_unit_interval() {
            Err(DriverError::PartialPositionOutOfRange)
        } else if self.config.needs_calibration() {
            Err(DriverError::MissingMotorConfig)
        } else {
            Ok(
                LivingRoomScript::Partial {
                    flip: self.config.flip_motor_id,
                    slide: self.config.slide_motor_id,
                    center: self.config.spec_flip_motor_center()->Some_0,
                    target: self.partial_target(fraction) as i32,
                    from_open: self.state is Open,
                },
            )
        }
    }

    /// The script that follows a calibration which found `bounds`.
    pub open spec fn settle_script(self, bounds: Bounds) -> LivingRoomScript {
        LivingRoomScript::Settle {
            flip: self.config.flip_motor_id,
            slide: self.config.slide_motor_id,
            center: midpoint(bounds.left as int, bounds.right as int) as i32,
            left: bounds.left,
        }
    }

    /// A controller for the room that `config` describes, and the command
    /// with which the host starts: the release of all motors.
    pub fn new(config: LivingRoomBlindsConfig) -> (created: (LivingRoomBlinds, MotorCommand))
        ensures
            created.0.config == config,
            created.0.state is Other,
            created.1 == (MotorCommand::Release { motor: BROADCAST_ID }),
    {
        (
            LivingRoomBlinds { config, state: BlindsState::Other },
            MotorCommand::Release { motor: BROADCAST_ID },
        )
    }

    /// The state of the blinds.
    pub fn state(&self) -> (state: BlindsState)
        ensures
            state == self.state,
    {
        self.state
    }

    /// Begins to restart all motors.
    pub fn reset_motors(&self) -> (progress: Progress<Routine<LivingRoomScript>, ()>)
        ensures
            progress == spec_begin_at(LivingRoomScript::Reset, 0),
            progress is Pending,
    {
        begin_script(LivingRoomScript::Reset)
    }

    /// Begins to turn the louvers open: the flip motor goes to the centre of
    /// its travel, unless it is there already. Fails at once if the room is
    /// not calibrated.
    pub fn flip_open(&self) -> (progress: Progress<Motion, ()>)
        ensures
            progress == (match self.config.spec_flip_motor_center() {
                Some(center) => flip_plan(self.config.flip_motor_id, center, true).spec_begin(),
                None => Progress::Finished(Err(DriverError::MissingMotorConfig)),
            }),
    {
        match self.config.flip_motor_center() {
            Some(center) => plan_flip(self.config.flip_motor_id, center, true).begin(),
            None => Progress::Finished(Err(DriverError::MissingMotorConfig)),
        }
    }

    /// Begins to turn the louvers closed, to the left end of the flip
    /// motor's travel. Fails at once if that end is not known.
    pub fn flip_close_left(&self) -> (progress: Progress<Motion, ()>)
        ensures
            progress == (match self.config.flip_motor_left {
                Some(left) => flip_plan(self.config.flip_motor_id, left, false).spec_begin(),
                None => Progress::Finished(Err(DriverError::MissingMotorConfig)),
            }),
    {
        match self.config.flip_motor_left {
            Some(left) => plan_flip(self.config.flip_motor_id, left, false).begin(),
            None => Progress::Finished(Err(DriverError::MissingMotorConfig)),
        }
    }

    /// Begins to turn the louvers closed the other way round, to the right
    /// end of the flip motor's travel. Fails at once if that end is not
    /// known. No operation of the room closes the louvers this way.
    pub fn flip_close_right(&self) -> (progress: Progress<Motion, ()>)
        ensures
            progress == (match self.config.flip_motor_right {
                Some(right) => flip_plan(self.config.flip_motor_id, right, false).spec_begin(),
                None => Progress::Finished(Err(DriverError::MissingMotorConfig)),
            }),
    {
        match self.config.flip_motor_right {
            Some(right) => plan_flip(self.config.flip_motor_id, right, false).begin(),
            None => Progress::Finished(Err(DriverError::MissingMotorConfig)),
        }
    }

    /// Begins to turn the louvers open by the fraction `open`, unless the
    /// flip motor is there already. Fails at once if the fraction lies
    /// outside of `[0, 1]` or, if it does not, if the room is not calibrated.
    pub fn flip_partial_left(&self, open: Fraction) -> (progress: Progress<Motion, ()>)
        ensures
            progress == (if !open.in_unit_interval() {
                Progress::Finished(Err(DriverError::PartialPositionOutOfRange))
            } else if self.config.needs_calibration() {
                Progress::Finished(Err(DriverError::MissingMotorConfig))
            } else {
                flip_plan(
                    self.config.flip_motor_id,
                    self.partial_target(open) as i32,
                    true,
                ).spec_begin()
            }),
    {
        if !open.is_in_unit_interval() {
            return Progress::Finished(Err(DriverError::PartialPositionOutOfRange));
        }
        match (self.config.flip_motor_center(), self.config.flip_motor_left) {
            (Some(center), Some(left)) => match partial_position(left, center, open) {
                Ok(target) => plan_flip(self.config.flip_motor_id, target, true).begin(),
                Err(error) => Progress::Finished(Err(error)),
            },
            _ => Progress::Finished(Err(DriverError::MissingMotorConfig)),
        }
    }

    /// Begins to slide the blinds open.
    pub fn slide_open(&self) -> (progress: Progress<Motion, ()>)
        ensures
            progress == slide_plan(
                self.config.slide_motor_id,
                (-SLIDING_SPEED) as i32,
            ).spec_begin(),
    {
        plan_slide(self.config.slide_motor_id, -SLIDING_SPEED).begin()
    }

    /// Begins to slide the blinds closed.
    pub fn slide_closed(&self) -> (progress: Progress<Motion, ()>)
        ensures
            progress == slide_plan(self.config.slide_motor_id, SLIDING_SPEED).spec_begin(),
    {
        plan_slide(self.config.slide_motor_id, SLIDING_SPEED).begin()
    }

    /// Begins to learn the travel of the flip motor.
    pub fn calibrate_flipper(&self) -> (progress: Progress<FlipperCalibration, Bounds>)
        ensures
            progress == FlipperCalibration::spec_begin(self.config.flip_motor_id),
    {
        FlipperCalibration::begin(self.config.flip_motor_id)
    }

}

impl Blinds for LivingRoomBlinds {
    type Operation = LivingRoomOperation;

    open spec fn blinds_state(&self) -> BlindsState {
        self.state
    }

    open spec fn is_calibrated(&self) -> bool {
        !self.config.needs_calibration()
    }

    /// What `open` does to the room and hands back.
    ///
    /// Open blinds stay as they are and nothing is asked of the host.
    /// Otherwise the room enters `Opening`; if it is not calibrated the
    /// operation ends there, and if it is, the opening script begins and
    /// will take the room to `Open`.
    open spec fn spec_open(self) -> (LivingRoomBlinds, Turn<LivingRoomOperation>) {
        if self.state is Open {
            (self, Self::ended(Ok(())))
        } else {
            (
                self.entering(BlindsState::Opening),
                Turn {
                    notify: Some(BlindsState::Opening),
                    progress: match self.open_script() {
                        Some(script) => launched(Some(BlindsState::Open), script),
                        None => Progress::Finished(Err(DriverError::MissingMotorConfig)),
                    },
                },
            )
        }
    }

    /// What `close` does to the room and hands back: as `open`, with
    /// `Closed`, `Closing` and the closing script.
    open spec fn spec_close(self) -> (LivingRoomBlinds, Turn<LivingRoomOperation>) {
        if self.state is Closed {
            (self, Self::ended(Ok(())))
        } else {
            (
                self.entering(BlindsState::Closing),
                Turn {
                    notify: Some(BlindsState::Closing),
                    progress: match self.close_script() {
                        Some(script) => launched(Some(BlindsState::Closed), script),
                        None => Progress::Finished(Err(DriverError::MissingMotorConfig)),
                    },
                },
            )
        }
    }

    /// What `partial_open` does to the room and hands back: the room enters
    /// `Opening`; a fraction out of range or a room that is not calibrated
    /// ends the operation there, else the script begins that will take the
    /// room to `Partial`.
    open spec fn spec_partial_open(self, fraction: Fraction) -> (
        LivingRoomBlinds,
        Turn<LivingRoomOperation>,
    ) {
        (
            self.entering(BlindsState::Opening),
            Turn {
                notify: Some(BlindsState::Opening),
                progress: match self.partial_script(fraction) {
                    Ok(script) => launched(Some(BlindsState::Partial), script),
                    Err(error) => Progress::Finished(Err(error)),
                },
            },
        )
    }

    /// What `toggle` does: closed or closing blinds are opened, all others
    /// are closed.
    open spec fn spec_toggle(self) -> (LivingRoomBlinds, Turn<LivingRoomOperation>) {
        if self.state.toggle_target() is Open {
            self.spec_open()
        } else {
            self.spec_close()
        }
    }

    /// What `calibrate` does to the room and hands back: the room enters
    /// `Other` and the calibration of the flip motor begins.
    open spec fn spec_calibrate(self) -> (LivingRoomBlinds, Turn<LivingRoomOperation>) {
        (
            self.entering(BlindsState::Other),
            Turn {
                notify: Some(BlindsState::Other),
                progress: match FlipperCalibration::spec_begin(self.config.flip_motor_id) {
                    Progress::Pending(calibration, request) => Progress::Pending(
                        LivingRoomOperation::Learning(calibration),
                        request,
                    ),
                    Progress::Finished(Ok(_)) => Progress::Finished(Ok(())),
                    Progress::Finished(Err(error)) => Progress::Finished(Err(error)),
                },
            },
        )
    }

    /// What `resume` does to the room and hands back.
    ///
    /// A script goes on as it decides. When it succeeds the room enters the
    /// goal of the operation, if it has one; when it fails the room stays in
    /// the state it is in. A calibration goes on as it decides as well; when
    /// it succeeds the bounds it found become the room's travel limits and
    /// the script that settles the room begins.
    open spec fn spec_resume(
        self,
        operation: LivingRoomOperation,
        now_ms: u64,
        response: Response,
    ) -> (LivingRoomBlinds, Turn<LivingRoomOperation>) {
        match operation {
            LivingRoomOperation::Scripted { goal, routine } => match routine.spec_resume(
                now_ms,
                response,
            ) {
                Progress::Pending(routine, request) => (
                    self,
                    Turn {
                        notify: None,
                        progress: Progress::Pending(
                            LivingRoomOperation::Scripted { goal, routine },
                            request,
                        ),
                    },
                ),
                Progress::Finished(Ok(_)) => match goal {
                    Some(state) => (
                        self.entering(state),
                        Turn { notify: Some(state), progress: Progress::Finished(Ok(())) },
                    ),
                    None => (self, Self::ended(Ok(()))),
                },
                Progress::Finished(Err(error)) => (self, Self::ended(Err(error))),
            },
            LivingRoomOperation::Learning(calibration) => match calibration.spec_resume(
                now_ms,
                response,
            ) {
                Progress::Pending(calibration, request) => (
                    self,
                    Turn {
                        notify: None,
                        progress: Progress::Pending(
                            LivingRoomOperation::Learning(calibration),
                            request,
                        ),
                    },
                ),
                Progress::Finished(Ok(bounds)) => (
                    self.with_bounds(bounds),
                    Turn { notify: None, progress: launched(None, self.settle_script(bounds)) },
                ),
                Progress::Finished(Err(error)) => (self, Self::ended(Err(error))),
            },
        }
    }

    /// Whether a travel limit has yet to be learned.
    fn needs_calibration(&self) -> (needed: bool)
        ensures
            needed == self.config.needs_calibration(),
            needed == (self.config.flip_motor_left is None || self.config.flip_motor_right
                is None),
    {
        self.config.flip_motor_left.is_none() || self.config.flip_motor_right.is_none()
    }

    /// Begins to check whether a motor has lost power since it was last
    /// configured: the flip motor is asked first, then the slide motor.
    fn were_motors_reset(&self) -> (progress: Progress<MarkerCheck, bool>)
        ensures
            progress == MarkerCheck::spec_begin(
                self.config.flip_motor_id,
                Some(self.config.slide_motor_id),
            ),
    {
        MarkerCheck::begin(self.config.flip_motor_id, Some(self.config.slide_motor_id))
    }

    /// Begins to open the blinds.
    fn open(&mut self) -> (turn: Turn<LivingRoomOperation>)
        ensures
            (*final(self), turn) == old(self).spec_open(),
            old(self).state is Open ==> *final(self) == *old(self) && turn.notify is None
                && turn.progress == Progress::<LivingRoomOperation, ()>::Finished(Ok(())),
            final(self).config == old(self).config,
    {
        if self.state == BlindsState::Open {
            return Turn { notify: None, progress: Progress::Finished(Ok(())) };
        }
        self.state = BlindsState::Opening;
        let progress = match self.config.flip_motor_center() {
            Some(center) => launch(
                Some(BlindsState::Open),
                LivingRoomScript::Open {
                    flip: self.config.flip_motor_id,
                    slide: self.config.slide_motor_id,
                    center,
                },
            ),
            None => Progress::Finished(Err(DriverError::MissingMotorConfig)),
        };
        Turn { notify: Some(BlindsState::Opening), progress }
    }

    /// Begins to close the blinds.
    fn close(&mut self) -> (turn: Turn<LivingRoomOperation>)
        ensures
            (*final(self), turn) == old(self).spec_close(),
            old(self).state is Closed ==> *final(self) == *old(self) && turn.notify is None
                && turn.progress == Progress::<LivingRoomOperation, ()>::Finished(Ok(())),
            final(self).config == old(self).config,
    {
        if self.state == BlindsState::Closed {
            return Turn { notify: None, progress: Progress::Finished(Ok(())) };
        }
        self.state = BlindsState::Closing;
        let progress = match (self.config.flip_motor_center(), self.config.flip_motor_left) {
            (Some(center), Some(left)) => launch(
                Some(BlindsState::Closed),
                LivingRoomScript::Close {
                    flip: self.config.flip_motor_id,
                    slide: self.config.slide_motor_id,
                    center,
                    left,
                },
            ),
            _ => Progress::Finished(Err(DriverError::MissingMotorConfig)),
        };
        Turn { notify: Some(BlindsState::Closing), progress }
    }

    /// Begins to open the louvers by `fraction`, with the blinds closed.
    fn partial_open(&mut self, fraction: Fraction) -> (turn: Turn<LivingRoomOperation>)
        ensures
            (*final(self), turn) == old(self).spec_partial_open(fraction),
            !fraction.in_unit_interval() ==> turn.progress == Progress::<
                LivingRoomOperation,
                (),
            >::Finished(Err(DriverError::PartialPositionOutOfRange)),
            final(self).config == old(self).config,
    {
        let from_open = self.state == BlindsState::Open;
        self.state = BlindsState::Opening;
        let notify = Some(BlindsState::Opening);
        if !fraction.is_in_unit_interval() {
            return Turn {
                notify,
                progress: Progress::Finished(Err(DriverError::PartialPositionOutOfRange)),
            };
        }
        let progress = match (self.config.flip_motor_center(), self.config.flip_motor_left) {
            (Some(center), Some(left)) => match partial_position(left, center, fraction) {
                Ok(target) => launch(
                    Some(BlindsState::Partial),
                    LivingRoomScript::Partial {
                        flip: self.config.flip_motor_id,
                        slide: self.config.slide_motor_id,
                        center,
                        target,
                        from_open,
                    },
                ),
                Err(error) => Progress::Finished(Err(error)),
            },
            _ => Progress::Finished(Err(DriverError::MissingMotorConfig)),
        };
        Turn { notify, progress }
    }

    /// Begins to open closed blinds, or to close open ones.
    fn toggle(&mut self) -> (turn: Turn<LivingRoomOperation>)
        ensures
            (*final(self), turn) == old(self).spec_toggle(),
            final(self).config == old(self).config,
    {
        match self.state.toggles_to() {
            BlindsState::Open => self.open(),
            _ => self.close(),
        }
    }

    /// Begins to calibrate the room.
    fn calibrate(&mut self) -> (turn: Turn<LivingRoomOperation>)
        ensures
            (*final(self), turn) == old(self).spec_calibrate(),
            final(self).config == old(self).config,
    {
        self.state = BlindsState::Other;
        let progress = match FlipperCalibration::begin(self.config.flip_motor_id) {
            Progress::Pending(calibration, request) => Progress::Pending(
                LivingRoomOperation::Learning(calibration),
                request,
            ),
            Progress::Finished(Ok(_)) => Progress::Finished(Ok(())),
            Progress::Finished(Err(error)) => Progress::Finished(Err(error)),
        };
        Turn { notify: Some(BlindsState::Other), progress }
    }

    /// Takes the host's answer to the request that `operation` is pending
    /// on and decides what comes next. `now_ms` is the host's clock at the
    /// time of the answer.
    fn resume(
        &mut self,
        operation: LivingRoomOperation,
        now_ms: u64,
        response: Response,
    ) -> (turn: Turn<LivingRoomOperation>)
        ensures
            (*final(self), turn) == old(self).spec_resume(operation, now_ms, response),
            turn.notify matches Some(state) ==> final(self).state == state,
            turn.notify is None ==> final(self).state == old(self).state,
            final(self).config != old(self).config ==> operation is Learning
                && !final(self).config.needs_calibration(),
    {
        match operation {
            LivingRoomOperation::Scripted { goal, routine } => match routine.resume(
                now_ms,
                response,
            ) {
                Progress::Pending(routine, request) => Turn {
                    notify: None,
                    progress: Progress::Pending(
                        LivingRoomOperation::Scripted { goal, routine },
                        request,
                    ),
                },
                Progress::Finished(Ok(_)) => {
                    if let Some(state) = goal {
                        self.state = state;
                    }
                    Turn { notify: goal, progress: Progress::Finished(Ok(())) }
                },
                Progress::Finished(Err(error)) => Turn {
                    notify: None,
                    progress: Progress::Finished(Err(error)),
                },
            },
            LivingRoomOperation::Learning(calibration) => match calibration.resume(
                now_ms,
                response,
            ) {
                Progress::Pending(calibration, request) => Turn {
                    notify: None,
                    progress: Progress::Pending(
                        LivingRoomOperation::Learning(calibration),
                        request,
                    ),
                },
                Progress::Finished(Ok(bounds)) => {
                    self.config.flip_motor_left = Some(bounds.left);
                    self.config.flip_motor_right = Some(bounds.right);
                    let script = LivingRoomScript::Settle {
                        flip: self.config.flip_motor_id,
                        slide: self.config.slide_motor_id,
                        center: midpoint_of(bounds.left, bounds.right),
                        left: bounds.left,
                    };
                    Turn { notify: None, progress: launch(None, script) }
                },
                Progress::Finished(Err(error)) => Turn {
                    notify: None,
                    progress: Progress::Finished(Err(error)),
                },
            },
        }
    }
}

impl LivingRoomBlinds {
    /// Whether the operation that `turn` belongs to is on its way to `goal`
    /// and has not learned anything about the room: it runs a script
    /// towards that goal, or it has failed, or it has succeeded and the room
    /// is there.
    pub open spec fn heading(self, turn: Turn<LivingRoomOperation>, goal: BlindsState) -> bool {
        match turn.progress {
            Progress::Pending(LivingRoomOperation::Scripted { goal: aim, .. }, _) => aim == Some(
                goal,
            ),
            Progress::Pending(LivingRoomOperation::Learning(_), _) => false,
            Progress::Finished(Ok(_)) => self.state == goal,
            Progress::Finished(Err(_)) => true,
        }
    }

    /// Whether the operation that `turn` belongs to is a calibration in
    /// order: while it learns, nothing is said of the room; once it has
    /// learned, and when it has succeeded, the room is calibrated.
    pub open spec fn calibrating(self, turn: Turn<LivingRoomOperation>) -> bool {
        match turn.progress {
            Progress::Pending(LivingRoomOperation::Scripted { goal, .. }, _) => goal is None
                && !self.config.needs_calibration(),
            Progress::Pending(LivingRoomOperation::Learning(_), _) => true,
            Progress::Finished(Ok(_)) => !self.config.needs_calibration(),
            Progress::Finished(Err(_)) => true,
        }
    }
}

/// An operation on its way to a goal leaves the configuration alone. If it
/// succeeds the room is at the goal; until then, and if it fails, the room
/// stays in the state in which the operation found it.
pub proof fn lemma_run_towards_goal(
    room: LivingRoomBlinds,
    turn: Turn<LivingRoomOperation>,
    goal: BlindsState,
    answers: Seq<Answer>,
)
    requires
        room.heading(turn, goal),
    ensures
        ({
            let trace = run(room, turn, answers);
            &&& trace.room.config == room.config
            &&& trace.result == Some(Ok::<(), DriverError>(())) ==> trace.room.state == goal
            &&& trace.result != Some(Ok::<(), DriverError>(())) ==> trace.room.state
                == room.state
        }),
    decreases answers.len(),
{
    if let Progress::Pending(operation, _) = turn.progress {
        if answers.len() > 0 {
            let (next_room, next) = room.spec_resume(
                operation,
                answers[0].now_ms,
                answers[0].response,
            );
            lemma_run_towards_goal(next_room, next, goal, answers.drop_first());
        }
    }
}

/// Opening twice moves the blinds once: after an `open` that succeeded, the
/// next `open` changes nothing, asks nothing of the host and publishes
/// nothing, whatever the host would answer.
pub proof fn lemma_open_is_idempotent(
    room: LivingRoomBlinds,
    answers: Seq<Answer>,
    later: Seq<Answer>,
)
    requires
        run(room.spec_open().0, room.spec_open().1, answers).result == Some(
            Ok::<(), DriverError>(()),
        ),
    ensures
        ({
            let first = run(room.spec_open().0, room.spec_open().1, answers);
            let again = first.room.spec_open();
            let second = run(again.0, again.1, later);
            &&& first.room.state is Open
            &&& again.0 == first.room
            &&& second.room == first.room
            &&& second.requests.len() == 0
            &&& second.notices.len() == 0
            &&& second.result == Some(Ok::<(), DriverError>(()))
        }),
{
    let (opening, turn) = room.spec_open();
    lemma_run_towards_goal(opening, turn, BlindsState::Open, answers);
}

/// Closing twice moves the blinds once: after a `close` that succeeded, the
/// next `close` changes nothing, asks nothing of the host and publishes
/// nothing, whatever the host would answer.
pub proof fn lemma_close_is_idempotent(
    room: LivingRoomBlinds,
    answers: Seq<Answer>,
    later: Seq<Answer>,
)
    requires
        run(room.spec_close().0, room.spec_close().1, answers).result == Some(
            Ok::<(), DriverError>(()),
        ),
    ensures
        ({
            let first = run(room.spec_close().0, room.spec_close().1, answers);
            let again = first.room.spec_close();
            let second = run(again.0, again.1, later);
            &&& first.room.state is Closed
            &&& again.0 == first.room
            &&& second.room == first.room
            &&& second.requests.len() == 0
            &&& second.notices.len() == 0
            &&& second.result == Some(Ok::<(), DriverError>(()))
        }),
{
    let (closing, turn) = room.spec_close();
    lemma_run_towards_goal(closing, turn, BlindsState::Closed, answers);
}

/// An `open` or a `close` that fails leaves the room in the transitional
/// state it entered, and so does one that has not come to its end; only
/// blinds that were at the goal already stay there.
pub proof fn lemma_failure_stays_transitional(room: LivingRoomBlinds, answers: Seq<Answer>)
    ensures
        ({
            let opened = run(room.spec_open().0, room.spec_open().1, answers);
            let closed = run(room.spec_close().0, room.spec_close().1, answers);
            &&& opened.result != Some(Ok::<(), DriverError>(())) ==> opened.room.state
                is Opening
            &&& closed.result != Some(Ok::<(), DriverError>(())) ==> closed.room.state
                is Closing
        }),
{
    let (opening, turn) = room.spec_open();
    lemma_run_towards_goal(opening, turn, BlindsState::Open, answers);
    let (closing, turn) = room.spec_close();
    lemma_run_towards_goal(closing, turn, BlindsState::Closed, answers);
}

/// A `toggle` that succeeds leaves closed and closing blinds open and all
/// others closed: from `Closed` the room arrives at `Open`, from `Open` at
/// `Closed`, and from `Other`, where nobody knows how the blinds stand, at
/// `Closed` as well. The configuration stays as it is.
pub proof fn lemma_toggle_reaches_target(room: LivingRoomBlinds, answers: Seq<Answer>)
    ensures
        ({
            let trace = run(room.spec_toggle().0, room.spec_toggle().1, answers);
            &&& trace.room.config == room.config
            &&& trace.result == Some(Ok::<(), DriverError>(())) ==> {
                &&& trace.room.state == room.state.toggle_target()
                &&& room.state is Closed ==> trace.room.state is Open
                &&& room.state is Open ==> trace.room.state is Closed
                &&& room.state is Other ==> trace.room.state is Closed
            }
        }),
{
    let (next, turn) = room.spec_toggle();
    lemma_run_towards_goal(next, turn, room.state.toggle_target(), answers);
}

/// A partial opening by a fraction outside of `[0, 1]` is refused before
/// anything is asked of the host: no motor gets a command, whatever the
/// host would answer, and the configuration stays as it is.
pub proof fn lemma_partial_out_of_range_moves_nothing(
    room: LivingRoomBlinds,
    fraction: Fraction,
    answers: Seq<Answer>,
)
    requires
        !fraction.in_unit_interval(),
    ensures
        ({
            let trace = run(room.spec_partial_open(fraction).0, room.spec_partial_open(fraction).1,
                answers,
            );
            &&& trace.requests.len() == 0
            &&& trace.result == Some(
                Err::<(), DriverError>(DriverError::PartialPositionOutOfRange),
            )
            &&& trace.room.config == room.config
        }),
{
}

/// A partial opening that succeeds leaves the room in `Partial`; one that
/// does not leaves it in `Opening`. The configuration stays as it is.
pub proof fn lemma_partial_reaches_partial(
    room: LivingRoomBlinds,
    fraction: Fraction,
    answers: Seq<Answer>,
)
    ensures
        ({
            let trace = run(room.spec_partial_open(fraction).0, room.spec_partial_open(fraction).1,
                answers,
            );
            &&& trace.room.config == room.config
            &&& trace.result == Some(Ok::<(), DriverError>(())) ==> trace.room.state is Partial
            &&& trace.result != Some(Ok::<(), DriverError>(())) ==> trace.room.state is Opening
        }),
{
    let (next, turn) = room.spec_partial_open(fraction);
    lemma_run_towards_goal(next, turn, BlindsState::Partial, answers);
}

proof fn lemma_run_of_calibration(
    room: LivingRoomBlinds,
    turn: Turn<LivingRoomOperation>,
    answers: Seq<Answer>,
)
    requires
        room.calibrating(turn),
    ensures
        ({
            let trace = run(room, turn, answers);
            &&& trace.room.state == room.state
            &&& trace.room.config == room.config || !trace.room.config.needs_calibration()
            &&& trace.room.config != room.config ==> trace.requests.contains(Request::Persist)
            &&& trace.result == Some(Ok::<(), DriverError>(()))
                ==> !trace.room.config.needs_calibration()
        }),
    decreases answers.len(),
{
    if let Progress::Pending(operation, request) = turn.progress {
        if answers.len() > 0 {
            let (next_room, next) = room.spec_resume(
                operation,
                answers[0].now_ms,
                answers[0].response,
            );
            let rest = run(next_room, next, answers.drop_first());
            lemma_run_of_calibration(next_room, next, answers.drop_first());
            let requests = seq![request] + rest.requests;
            if rest.requests.contains(Request::Persist) {
                let at = choose|at: int|
                    0 <= at < rest.requests.len() && rest.requests[at] == Request::Persist;
                assert(requests[at + 1] == Request::Persist);
            }
            if next_room.config != room.config {
                assert(rest.requests[0] == Request::Persist);
                assert(requests[1] == Request::Persist);
            }
        }
    }
}

/// A calibration keeps the room in `Other` from its first turn to its last.
/// The travel limits change at most once, when the motor's travel has been
/// learned, and are set from then on: a calibration that succeeds leaves
/// the room calibrated, and one that fails before it has asked for the
/// configuration to be stored leaves the configuration as it was.
pub proof fn lemma_calibration_calibrates(room: LivingRoomBlinds, answers: Seq<Answer>)
    ensures
        ({
            let trace = run(room.spec_calibrate().0, room.spec_calibrate().1, answers);
            &&& trace.room.state is Other
            &&& trace.room.config == room.config || !trace.room.config.needs_calibration()
            &&& trace.room.config != room.config ==> trace.requests.contains(Request::Persist)
            &&& trace.result == Some(Ok::<(), DriverError>(()))
                ==> !trace.room.config.needs_calibration()
        }),
{
    let (next, turn) = room.spec_calibrate();
    lemma_run_of_calibration(next, turn, answers);
}

/// Every change of state is published: at the end of a run the room is in
/// the state that was published last or, if none was, in the state in which
/// the run found it.
pub proof fn lemma_state_is_what_was_published(
    room: LivingRoomBlinds,
    turn: Turn<LivingRoomOperation>,
    answers: Seq<Answer>,
)
    requires
        turn.notify is Some ==> room.state == turn.notify->Some_0,
    ensures
        ({
            let trace = run(room, turn, answers);
            if trace.notices.len() > 0 {
                trace.room.state == trace.notices.last()
            } else {
                turn.notify is None && trace.room.state == room.state
            }
        }),
    decreases answers.len(),
{
    if let Progress::Pending(operation, _) = turn.progress {
        if answers.len() > 0 {
            let (next_room, next) = room.spec_resume(
                operation,
                answers[0].now_ms,
                answers[0].response,
            );
            lemma_state_is_what_was_published(next_room, next, answers.drop_first());
            let rest = run(next_room, next, answers.drop_first());
            let notices = notices_of(turn.notify) + rest.notices;
            if rest.notices.len() > 0 {
                assert(notices.last() == rest.notices.last());
            } else {
                assert(notices =~= notices_of(turn.notify));
            }
        }
    }
}

} // verus!
