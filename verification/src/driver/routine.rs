//! Scripts: fixed sequences of tasks that are carried out one after another.
//!
//! Every operation on a room is a script. The first task that fails ends the
//! script with its error and the tasks after it are never begun.

use crate::driver::motion::{Motion, MotionPlan};
use crate::driver::motor::MotorCommand;
use crate::driver::protocol::{Progress, Request, Response};
use crate::error::DriverError;
use vstd::prelude::*;

verus! {

/// One entry of a script.
#[derive(Clone, Copy, Debug, PartialEq, Eq, Structural)]
pub enum Task {
    /// Send a command and have it acknowledged.
    Send(MotorCommand),
    /// Carry out a motion: command, wait for the stop, release.
    Travel(MotionPlan),
    /// Let time pass.
    Pause { millis: u64 },
    /// Have the configuration stored.
    Persist,
}

/// What the task under way is waiting for.
#[derive(Clone, Copy, Debug, PartialEq, Eq, Structural)]
pub enum TaskPhase {
    Sending,
    Travelling(Motion),
    Pausing,
    Persisting,
}

/// A fixed sequence of tasks.
pub trait Script: Sized {
    /// The tasks of the script, in the order in which they are carried out.
    spec fn tasks(&self) -> Seq<Task>;

    /// The task at `index`, if the script is that long.
    fn task_at(&self, index: usize) -> (task: Option<Task>)
        ensures
            task == (if index < self.tasks().len() {
                Some(self.tasks()[index as int])
            } else {
                None
            }),
    ;
}

/// A script under way: the task at `index` has begun and is in `phase`.
#[derive(Debug, PartialEq, Eq)]
pub struct Routine<S> {
    pub script: S,
    pub index: usize,
    pub phase: TaskPhase,
}

impl Task {
    /// The task as it stands when it has just begun.
    pub open spec fn spec_begin(self) -> Progress<TaskPhase, ()> {
        match self {
            Task::Send(command) => Progress::Pending(TaskPhase::Sending, Request::Motor(command)),
            Task::Travel(plan) => match plan.spec_begin() {
                Progress::Pending(motion, request) => Progress::Pending(
                    TaskPhase::Travelling(motion),
                    request,
                ),
                Progress::Finished(result) => Progress::Finished(result),
            },
            Task::Pause { millis } => Progress::Pending(
                TaskPhase::Pausing,
                Request::Sleep { millis },
            ),
            Task::Persist => Progress::Pending(TaskPhase::Persisting, Request::Persist),
        }
    }

    /// Begins the task and returns its first request.
    pub fn begin(self) -> (progress: Progress<TaskPhase, ()>)
        ensures
            progress == self.spec_begin(),
            progress is Pending,
    {
        match self {
            Task::Send(command) => Progress::Pending(TaskPhase::Sending, Request::Motor(command)),
            Task::Travel(plan) => match plan.begin() {
                Progress::Pending(motion, request) => Progress::Pending(
                    TaskPhase::Travelling(motion),
                    request,
                ),
                Progress::Finished(result) => Progress::Finished(result),
            },
            Task::Pause { millis } => Progress::Pending(
                TaskPhase::Pausing,
                Request::Sleep { millis },
            ),
            Task::Persist => Progress::Pending(TaskPhase::Persisting, Request::Persist),
        }
    }
}

impl TaskPhase {
    /// The decision a task takes on an answer: a command and a store have
    /// to be acknowledged with `Done`, a pause is over with any answer, and
    /// a motion decides for itself.
    pub open spec fn spec_resume(self, now_ms: u64, response: Response) -> Progress<TaskPhase, ()> {
        match self {
            TaskPhase::Sending | TaskPhase::Persisting => match response {
                Response::Done => Progress::Finished(Ok(())),
                _ => Progress::Finished(Err(DriverError::Transport)),
            },
            TaskPhase::Travelling(motion) => match motion.spec_resume(now_ms, response) {
                Progress::Pending(motion, request) => Progress::Pending(
                    TaskPhase::Travelling(motion),
                    request,
                ),
                Progress::Finished(result) => Progress::Finished(result),
            },
            TaskPhase::Pausing => Progress::Finished(Ok(())),
        }
    }

    /// Takes the host's answer to the pending request and decides what comes
    /// next.
    pub fn resume(self, now_ms: u64, response: Response) -> (progress: Progress<TaskPhase, ()>)
        ensures
            progress == self.spec_resume(now_ms, response),
    {
        match self {
            TaskPhase::Sending | TaskPhase::Persisting => match response {
                Response::Done => Progress::Finished(Ok(())),
                _ => Progress::Finished(Err(DriverError::Transport)),
            },
            TaskPhase::Travelling(motion) => match motion.resume(now_ms, response) {
                Progress::Pending(motion, request) => Progress::Pending(
                    TaskPhase::Travelling(motion),
                    request,
                ),
                Progress::Finished(result) => Progress::Finished(result),
            },
            TaskPhase::Pausing => Progress::Finished(Ok(())),
        }
    }
}

/// The script as it stands when its task at `index` has just begun, or its
/// success if there is no such task.
pub open spec fn spec_begin_at<S: Script>(script: S, index: usize) -> Progress<Routine<S>, ()> {
    if index < script.tasks().len() {
        match script.tasks()[index as int].spec_begin() {
            Progress::Pending(phase, request) => Progress::Pending(
                Routine { script, index, phase },
                request,
            ),
            Progress::Finished(result) => Progress::Finished(result),
        }
    } else {
        Progress::Finished(Ok(()))
    }
}

/// Begins the task at `index` of the script, or finishes with success if the
/// script has no such task.
pub fn begin_at<S: Script>(script: S, index: usize) -> (progress: Progress<Routine<S>, ()>)
    ensures
        progress == spec_begin_at(script, index),
        (progress is Pending) == (index < script.tasks().len()),
        progress matches Progress::Finished(result) ==> result is Ok,
{
    match script.task_at(index) {
        Some(task) => match task.begin() {
            Progress::Pending(phase, request) => Progress::Pending(
                Routine { script, index, phase },
                request,
            ),
            Progress::Finished(result) => Progress::Finished(result),
        },
        None => Progress::Finished(Ok(())),
    }
}

/// Begins a script with its first task. An empty script succeeds at once.
pub fn begin_script<S: Script>(script: S) -> (progress: Progress<Routine<S>, ()>)
    ensures
        progress == spec_begin_at(script, 0),
        (progress is Pending) == (script.tasks().len() > 0),
        progress matches Progress::Finished(result) ==> result is Ok,
{
    begin_at(script, 0)
}

impl<S: Script> Routine<S> {
    /// The index of the task after the one under way.
    pub open spec fn next_index(self) -> usize {
        if self.index < usize::MAX {
            (self.index + 1) as usize
        } else {
            self.index
        }
    }

    /// The decision a script takes on an answer: the task under way decides;
    /// when it succeeds the next task begins, and the script succeeds with
    /// its last task.
    pub open spec fn spec_resume(self, now_ms: u64, response: Response) -> Progress<
        Routine<S>,
        (),
    > {
        match self.phase.spec_resume(now_ms, response) {
            Progress::Pending(phase, request) => Progress::Pending(
                Routine { script: self.script, index: self.index, phase },
                request,
            ),
            Progress::Finished(Ok(_)) => spec_begin_at(self.script, self.next_index()),
            Progress::Finished(Err(error)) => Progress::Finished(Err(error)),
        }
    }

    /// Takes the host's answer to the pending request and decides what comes
    /// next.
    pub fn resume(self, now_ms: u64, response: Response) -> (progress: Progress<Routine<S>, ()>)
        ensures
            progress == self.spec_resume(now_ms, response),
            progress matches Progress::Pending(routine, _) ==> routine.script == self.script,
    {
        let Routine { script, index, phase } = self;
        match phase.resume(now_ms, response) {
            Progress::Pending(phase, request) => Progress::Pending(
                Routine { script, index, phase },
                request,
            ),
            Progress::Finished(Ok(_)) => {
                let next = if index < usize::MAX {
                    index + 1
                } else {
                    index
                };
                begin_at(script, next)
            },
            Progress::Finished(Err(error)) => Progress::Finished(Err(error)),
        }
    }
}

} // verus!
