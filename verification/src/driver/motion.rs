//! One motion of one motor: command it, wait until it has stopped, release it.
//!
//! A motion to a position may first measure where the motor stands and, if
//! that is within [`POSITION_TOLERANCE`] of the target, only release it: a
//! redundant move is audible and wears the gear.

use crate::driver::motor::MotorCommand;
use crate::driver::protocol::{Progress, Request, Response};
use crate::driver::wait::{
    begun_wait, lemma_release_count_push_front, release_count, wait_until_motor_stopped, Answer,
    MotorWait, Trace,
};
use crate::error::DriverError;
use vstd::prelude::*;

verus! {

/// A motor closer than this to its target, in tenths of a degree, is taken to
/// have arrived.
pub const POSITION_TOLERANCE: i32 = 30;

/// How the motor is driven.
#[derive(Clone, Copy, Debug, PartialEq, Eq, Structural)]
pub enum Drive {
    /// To an absolute position. With `skip_when_near` the position is
    /// measured first and the move is left out if the motor is near enough.
    Position { target: i32, skip_when_near: bool },
    /// At a constant speed, until the current limit stalls the motor against
    /// a mechanical stop.
    Speed { speed: i32 },
}

/// Everything that determines a motion.
#[derive(Clone, Copy, Debug, PartialEq, Eq, Structural)]
pub struct MotionPlan {
    pub motor: u8,
    pub drive: Drive,
    /// Current, in milliamperes, above which the motor goes limp.
    pub current_limit: u32,
    /// Time the motor is given to come to rest.
    pub timeout_ms: u64,
}

/// What a motion is waiting for.
#[derive(Clone, Copy, Debug, PartialEq, Eq, Structural)]
pub enum MotionPhase {
    /// The position query that decides whether to move at all.
    Measuring,
    /// The acknowledgement of the motion command.
    Commanding,
    /// The motor coming to rest.
    Waiting(MotorWait),
    /// The acknowledgement of the final release.
    Releasing,
}

/// A motion under way.
#[derive(Clone, Copy, Debug, PartialEq, Eq, Structural)]
pub struct Motion {
    pub plan: MotionPlan,
    pub phase: MotionPhase,
}

/// Whether a motor at `current` counts as having arrived at `target`.
pub open spec fn is_near(current: i32, target: i32) -> bool {
    -POSITION_TOLERANCE < current - target < POSITION_TOLERANCE
}

/// Decides whether a motor at `current` counts as having arrived at `target`.
pub fn near(current: i32, target: i32) -> (yes: bool)
    ensures
        yes == is_near(current, target),
{
    let delta: i64 = current as i64 - target as i64;
    -(POSITION_TOLERANCE as i64) < delta && delta < POSITION_TOLERANCE as i64
}

impl MotionPlan {
    /// The command that sets the motor in motion.
    pub open spec fn spec_command(self) -> MotorCommand {
        match self.drive {
            Drive::Position { target, .. } => MotorCommand::MoveTo {
                motor: self.motor,
                target,
                current_limit: self.current_limit,
            },
            Drive::Speed { speed } => MotorCommand::Rotate {
                motor: self.motor,
                speed,
                current_limit: self.current_limit,
            },
        }
    }

    pub fn command(self) -> (command: MotorCommand)
        ensures
            command == self.spec_command(),
    {
        match self.drive {
            Drive::Position { target, .. } => MotorCommand::MoveTo {
                motor: self.motor,
                target,
                current_limit: self.current_limit,
            },
            Drive::Speed { speed } => MotorCommand::Rotate {
                motor: self.motor,
                speed,
                current_limit: self.current_limit,
            },
        }
    }

    /// Whether the motion starts by measuring the position.
    pub open spec fn measures_first(self) -> bool {
        self.drive matches Drive::Position { skip_when_near, .. } && skip_when_near
    }

    /// The final request of every motion that succeeds.
    pub open spec fn release(self) -> Request {
        Request::Motor(MotorCommand::Release { motor: self.motor })
    }

    /// The motion as it stands when it has just begun.
    pub open spec fn spec_begin(self) -> Progress<Motion, ()> {
        if self.measures_first() {
            Progress::Pending(
                Motion { plan: self, phase: MotionPhase::Measuring },
                Request::Motor(MotorCommand::QueryPosition { motor: self.motor }),
            )
        } else {
            Progress::Pending(
                Motion { plan: self, phase: MotionPhase::Commanding },
                Request::Motor(self.spec_command()),
            )
        }
    }

    /// Begins the motion. The first request is the position query if the
    /// plan asks for one, else the motion command.
    pub fn begin(self) -> (progress: Progress<Motion, ()>)
        ensures
            progress == self.spec_begin(),
    {
        let measures = match self.drive {
            Drive::Position { skip_when_near, .. } => skip_when_near,
            Drive::Speed { .. } => false,
        };
        if measures {
            Progress::Pending(
                Motion { plan: self, phase: MotionPhase::Measuring },
                Request::Motor(MotorCommand::QueryPosition { motor: self.motor }),
            )
        } else {
            Progress::Pending(
                Motion { plan: self, phase: MotionPhase::Commanding },
                Request::Motor(self.command()),
            )
        }
    }
}

impl Motion {
    /// The motion in another phase.
    pub open spec fn in_phase(self, phase: MotionPhase) -> Motion {
        Motion { plan: self.plan, phase }
    }

    /// The decision a motion takes on an answer.
    ///
    /// | waiting for | answer | decision |
    /// |---|---|---|
    /// | the position | a position near the target | release the motor |
    /// | the position | any other position | send the motion command |
    /// | the command | done | begin to wait for the motor to stop |
    /// | the stop | any | as the wait decides; once it succeeds, release |
    /// | the release | done | finished, success |
    ///
    /// Any other answer ends the motion with a transport error, and a wait
    /// that fails ends it with the error of the wait.
    pub open spec fn spec_resume(self, now_ms: u64, response: Response) -> Progress<Motion, ()> {
        match self.phase {
            MotionPhase::Measuring => match response {
                Response::Position(current) => {
                    if self.plan.drive is Position && is_near(
                        current,
                        self.plan.drive->Position_target,
                    ) {
                        Progress::Pending(
                            self.in_phase(MotionPhase::Releasing),
                            self.plan.release(),
                        )
                    } else {
                        Progress::Pending(
                            self.in_phase(MotionPhase::Commanding),
                            Request::Motor(self.plan.spec_command()),
                        )
                    }
                },
                _ => Progress::Finished(Err(DriverError::Transport)),
            },
            MotionPhase::Commanding => match response {
                Response::Done => Progress::Pending(
                    self.in_phase(
                        MotionPhase::Waiting(
                            begun_wait(self.plan.motor, self.plan.timeout_ms, now_ms)->Pending_0,
                        ),
                    ),
                    begun_wait(self.plan.motor, self.plan.timeout_ms, now_ms)->Pending_1,
                ),
                _ => Progress::Finished(Err(DriverError::Transport)),
            },
            MotionPhase::Waiting(wait) => match wait.spec_resume(now_ms, response) {
                Progress::Pending(wait, request) => Progress::Pending(
                    self.in_phase(MotionPhase::Waiting(wait)),
                    request,
                ),
                Progress::Finished(Ok(_)) => Progress::Pending(
                    self.in_phase(MotionPhase::Releasing),
                    self.plan.release(),
                ),
                Progress::Finished(Err(error)) => Progress::Finished(Err(error)),
            },
            MotionPhase::Releasing => match response {
                Response::Done => Progress::Finished(Ok(())),
                _ => Progress::Finished(Err(DriverError::Transport)),
            },
        }
    }

    /// Takes the host's answer to the pending request and decides what comes
    /// next. `now_ms` is the host's clock at the time of the answer.
    pub fn resume(self, now_ms: u64, response: Response) -> (progress: Progress<Motion, ()>)
        ensures
            progress == self.spec_resume(now_ms, response),
            progress matches Progress::Pending(motion, _) ==> motion.plan == self.plan,
            progress matches Progress::Finished(Ok(_)) ==> self.phase is Releasing,
    {
        match self.phase {
            MotionPhase::Measuring => match response {
                Response::Position(current) => {
                    let arrived = match self.plan.drive {
                        Drive::Position { target, .. } => near(current, target),
                        Drive::Speed { .. } => false,
                    };
                    if arrived {
                        Progress::Pending(
                            Motion { plan: self.plan, phase: MotionPhase::Releasing },
                            Request::Motor(MotorCommand::Release { motor: self.plan.motor }),
                        )
                    } else {
                        Progress::Pending(
                            Motion { plan: self.plan, phase: MotionPhase::Commanding },
                            Request::Motor(self.plan.command()),
                        )
                    }
                },
                _ => Progress::Finished(Err(DriverError::Transport)),
            },
            MotionPhase::Commanding => match response {
                Response::Done => {
                    match wait_until_motor_stopped(self.plan.motor, self.plan.timeout_ms, now_ms) {
                        Progress::Pending(wait, request) => Progress::Pending(
                            Motion { plan: self.plan, phase: MotionPhase::Waiting(wait) },
                            request,
                        ),
                        Progress::Finished(result) => Progress::Finished(result),
                    }
                },
                _ => Progress::Finished(Err(DriverError::Transport)),
            },
            MotionPhase::Waiting(wait) => match wait.resume(now_ms, response) {
                Progress::Pending(wait, request) => Progress::Pending(
                    Motion { plan: self.plan, phase: MotionPhase::Waiting(wait) },
                    request,
                ),
                Progress::Finished(Ok(_)) => Progress::Pending(
                    Motion { plan: self.plan, phase: MotionPhase::Releasing },
                    Request::Motor(MotorCommand::Release { motor: self.plan.motor }),
                ),
                Progress::Finished(Err(error)) => Progress::Finished(Err(error)),
            },
            MotionPhase::Releasing => match response {
                Response::Done => Progress::Finished(Ok(())),
                _ => Progress::Finished(Err(DriverError::Transport)),
            },
        }
    }
}

/// What a motion does with a run of answers, the first of which answers the
/// request that `progress` is pending on. Answers past the end of the motion
/// are not looked at.
pub open spec fn run_motion(progress: Progress<Motion, ()>, answers: Seq<Answer>) -> Trace<()>
    decreases answers.len(),
{
    match progress {
        Progress::Finished(result) => Trace { requests: Seq::empty(), result: Some(result) },
        Progress::Pending(motion, request) => {
            if answers.len() == 0 {
                Trace { requests: seq![request], result: None }
            } else {
                let rest = run_motion(
                    motion.spec_resume(answers[0].now_ms, answers[0].response),
                    answers.drop_first(),
                );
                Trace { requests: seq![request] + rest.requests, result: rest.result }
            }
        },
    }
}

impl Motion {
    /// Whether the request that the motion is pending on is a release: the
    /// final one, or the one of a wait that has run out of time.
    pub open spec fn is_releasing(self) -> bool {
        self.phase is Releasing || (self.phase is Waiting && self.phase->Waiting_0.phase
            is Releasing)
    }

    /// Whether the wait inside the motion, if it has come to that, waits
    /// for the motor of the motion.
    pub open spec fn in_order(self) -> bool {
        self.phase is Waiting ==> self.phase->Waiting_0.motor == self.plan.motor
    }
}

proof fn lemma_motion_releases_once_from(motion: Motion, request: Request, answers: Seq<Answer>)
    requires
        motion.in_order(),
        motion.is_releasing() ==> request == motion.plan.release(),
        !motion.is_releasing() ==> !(request is Motor && request->Motor_0 is Release),
    ensures
        ({
            let trace = run_motion(Progress::Pending(motion, request), answers);
            &&& release_count(trace.requests) <= 1
            &&& trace.result == Some(Ok::<(), DriverError>(())) ==> release_count(trace.requests)
                == 1 && trace.requests.last() == motion.plan.release()
        }),
    decreases answers.len(),
{
    lemma_release_count_push_front(request, Seq::empty());
    assert(seq![request] + Seq::<Request>::empty() =~= seq![request]);
    if answers.len() > 0 {
        let next = motion.spec_resume(answers[0].now_ms, answers[0].response);
        let rest = answers.drop_first();
        let after = run_motion(next, rest);
        lemma_release_count_push_front(request, after.requests);
        match next {
            Progress::Finished(_) => {
                assert(after.requests =~= Seq::<Request>::empty());
                assert(seq![request] + after.requests =~= seq![request]);
            },
            Progress::Pending(moved, asked) => {
                lemma_motion_releases_once_from(moved, asked, rest);
                assert(after.requests.len() > 0);
                assert((seq![request] + after.requests).last() == after.requests.last());
            },
        }
    }
}

/// A motion releases its motor at most once, and one that succeeds has
/// released it with its last request: whatever the host answers, a motor
/// that was moved with success is left to spin freely.
pub proof fn lemma_motion_releases_once(plan: MotionPlan, answers: Seq<Answer>)
    ensures
        ({
            let trace = run_motion(plan.spec_begin(), answers);
            &&& release_count(trace.requests) <= 1
            &&& trace.result == Some(Ok::<(), DriverError>(())) ==> release_count(trace.requests)
                == 1 && trace.requests.last() == plan.release()
        }),
{
    let begun = plan.spec_begin();
    lemma_motion_releases_once_from(begun->Pending_0, begun->Pending_1, answers);
}

} // verus!
