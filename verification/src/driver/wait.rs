//! Waiting for a motor to come to rest.
//!
//! After a motion command the motor is polled until it reports a settled
//! status. Polling starts after a grace delay, because right after a command
//! the motor may still report the settled status it had before, and repeats
//! at a short interval. A fault status ends the wait at once; when the time
//! budget runs out the motor is released, on a best-effort basis, and the
//! wait fails.

use crate::driver::motor::{MotorCommand, MotorStatus, StatusKind};
use crate::driver::protocol::{Progress, Request, Response};
use crate::error::DriverError;
use vstd::prelude::*;

verus! {

/// Delay between a motion command and the first status poll.
pub const GRACE_DELAY_MS: u64 = 1000;

/// Delay between two status polls.
pub const POLL_INTERVAL_MS: u64 = 50;

/// What a wait is waiting for.
#[derive(Clone, Copy, Debug, PartialEq, Eq, Structural)]
pub enum WaitPhase {
    /// A delay is running: the grace delay or the pause between two polls.
    Resting,
    /// A status query is with the motor.
    Polling,
    /// The budget ran out and the release command is with the motor.
    Releasing,
}

/// A wait for one motor to stop, begun by [`wait_until_motor_stopped`].
#[derive(Clone, Copy, Debug, PartialEq, Eq, Structural)]
pub struct MotorWait {
    pub motor: u8,
    /// The time budget, counted from `started_ms`.
    pub timeout_ms: u64,
    /// The host's clock when the wait began.
    pub started_ms: u64,
    pub phase: WaitPhase,
}

/// One answer of the host: its clock when it answered, and what it reports.
#[derive(Clone, Copy, Debug, PartialEq, Eq, Structural)]
pub struct Answer {
    pub now_ms: u64,
    pub response: Response,
}

/// What a procedure did with a run of answers: every request it made, in
/// order, and its result if the answers took it to its end.
pub struct Trace<T> {
    pub requests: Seq<Request>,
    pub result: Option<Result<T, DriverError>>,
}

/// Time that has passed on the host's clock since `started_ms`. A clock that
/// reads earlier than the start counts as no time passed.
pub open spec fn elapsed_ms(started_ms: u64, now_ms: u64) -> int {
    if now_ms >= started_ms {
        now_ms - started_ms
    } else {
        0
    }
}

/// How many of the requests release a motor.
pub open spec fn release_count(requests: Seq<Request>) -> nat
    decreases requests.len(),
{
    if requests.len() == 0 {
        0
    } else {
        let rest = release_count(requests.drop_first());
        if requests[0] is Motor && requests[0]->Motor_0 is Release {
            rest + 1
        } else {
            rest
        }
    }
}

impl MotorWait {
    /// Whether the budget is spent at `now_ms`.
    pub open spec fn timed_out(self, now_ms: u64) -> bool {
        elapsed_ms(self.started_ms, now_ms) > self.timeout_ms
    }

    /// The wait in another phase.
    pub open spec fn in_phase(self, phase: WaitPhase) -> MotorWait {
        MotorWait { phase, ..self }
    }

    /// The decision the wait takes on an answer.
    ///
    /// | waiting for | answer | decision |
    /// |---|---|---|
    /// | a delay | any, budget spent | release the motor |
    /// | a delay | any, budget left | poll the status |
    /// | a status | settled | finished, success |
    /// | a status | fault | finished, that fault |
    /// | a status | in motion | pause, then poll again |
    /// | a status | no status | finished, transport error |
    /// | the release | any | finished, timed out |
    pub open spec fn spec_resume(self, now_ms: u64, response: Response) -> Progress<MotorWait, ()> {
        match self.phase {
            WaitPhase::Resting => {
                if self.timed_out(now_ms) {
                    Progress::Pending(
                        self.in_phase(WaitPhase::Releasing),
                        Request::Motor(MotorCommand::Release { motor: self.motor }),
                    )
                } else {
                    Progress::Pending(
                        self.in_phase(WaitPhase::Polling),
                        Request::Motor(MotorCommand::QueryStatus { motor: self.motor }),
                    )
                }
            },
            WaitPhase::Polling => match response {
                Response::Status(status) => {
                    if status.is_settled() {
                        Progress::Finished(Ok(()))
                    } else if status.is_fault() {
                        Progress::Finished(Err(DriverError::BadMotorStatus(status)))
                    } else {
                        Progress::Pending(
                            self.in_phase(WaitPhase::Resting),
                            Request::Sleep { millis: POLL_INTERVAL_MS },
                        )
                    }
                },
                _ => Progress::Finished(Err(DriverError::Transport)),
            },
            WaitPhase::Releasing => Progress::Finished(Err(DriverError::WaitingForStopTimedOut)),
        }
    }

    /// Takes the host's answer to the pending request and decides what comes
    /// next. `now_ms` is the host's clock at the time of the answer.
    pub fn resume(self, now_ms: u64, response: Response) -> (progress: Progress<MotorWait, ()>)
        ensures
            progress == self.spec_resume(now_ms, response),
            progress matches Progress::Pending(wait, _) ==> wait.motor == self.motor
                && wait.timeout_ms == self.timeout_ms && wait.started_ms == self.started_ms,
            progress matches Progress::Finished(Ok(_)) ==> self.phase is Polling
                && response.reports_settled(),
    {
        match self.phase {
            WaitPhase::Resting => {
                let elapsed: u64 = if now_ms >= self.started_ms {
                    now_ms - self.started_ms
                } else {
                    0
                };
                if elapsed > self.timeout_ms {
                    Progress::Pending(
                        MotorWait { phase: WaitPhase::Releasing, ..self },
                        Request::Motor(MotorCommand::Release { motor: self.motor }),
                    )
                } else {
                    Progress::Pending(
                        MotorWait { phase: WaitPhase::Polling, ..self },
                        Request::Motor(MotorCommand::QueryStatus { motor: self.motor }),
                    )
                }
            },
            WaitPhase::Polling => match response {
                Response::Status(status) => match status.kind() {
                    StatusKind::Settled => Progress::Finished(Ok(())),
                    StatusKind::Fault => Progress::Finished(
                        Err(DriverError::BadMotorStatus(status)),
                    ),
                    StatusKind::Transitional => Progress::Pending(
                        MotorWait { phase: WaitPhase::Resting, ..self },
                        Request::Sleep { millis: POLL_INTERVAL_MS },
                    ),
                },
                _ => Progress::Finished(Err(DriverError::Transport)),
            },
            WaitPhase::Releasing => Progress::Finished(Err(DriverError::WaitingForStopTimedOut)),
        }
    }
}

/// The wait as it stands when it has just begun.
pub open spec fn begun_wait(id: u8, timeout_ms: u64, now_ms: u64) -> Progress<MotorWait, ()> {
    Progress::Pending(
        MotorWait { motor: id, timeout_ms, started_ms: now_ms, phase: WaitPhase::Resting },
        Request::Sleep { millis: GRACE_DELAY_MS },
    )
}

/// Begins to wait for motor `id` to stop, with a budget of `timeout_ms`
/// counted from `now_ms`. The first request is the grace delay.
pub fn wait_until_motor_stopped(id: u8, timeout_ms: u64, now_ms: u64) -> (progress: Progress<
    MotorWait,
    (),
>)
    ensures
        progress == begun_wait(id, timeout_ms, now_ms),
{
    Progress::Pending(
        MotorWait { motor: id, timeout_ms, started_ms: now_ms, phase: WaitPhase::Resting },
        Request::Sleep { millis: GRACE_DELAY_MS },
    )
}

/// What a wait does with a run of answers, the first of which answers the
/// request that `progress` is pending on. Answers past the end of the wait
/// are not looked at.
pub open spec fn run_wait(progress: Progress<MotorWait, ()>, answers: Seq<Answer>) -> Trace<()>
    decreases answers.len(),
{
    match progress {
        Progress::Finished(result) => Trace { requests: Seq::empty(), result: Some(result) },
        Progress::Pending(wait, request) => {
            if answers.len() == 0 {
                Trace { requests: seq![request], result: None }
            } else {
                let rest = run_wait(
                    wait.spec_resume(answers[0].now_ms, answers[0].response),
                    answers.drop_first(),
                );
                Trace { requests: seq![request] + rest.requests, result: rest.result }
            }
        },
    }
}

/// Whether every second answer reports a motor that is still in motion:
/// the answers at odd places if `odd`, those at even places otherwise.
pub open spec fn polls_in_motion(answers: Seq<Answer>, odd: bool) -> bool {
    forall|i: int|
        #![trigger answers[i]]
        0 <= i < answers.len() && (i % 2 == 1) == odd ==> answers[i].response.reports_motion()
}

/// Whether every status among the answers is a fault.
pub open spec fn statuses_are_faults(answers: Seq<Answer>) -> bool {
    forall|i: int|
        #![trigger answers[i]]
        0 <= i < answers.len() && answers[i].response is Status
            ==> answers[i].response.reports_fault()
}

/// A request in front of others adds one to their releases if it is a
/// release, and nothing if it is none.
pub proof fn lemma_release_count_push_front(request: Request, rest: Seq<Request>)
    ensures
        release_count(seq![request] + rest) == release_count(rest) + (if request is Motor
            && request->Motor_0 is Release {
            1nat
        } else {
            0nat
        }),
{
    assert((seq![request] + rest).drop_first() =~= rest);
}

proof fn lemma_faults_never_succeed_from(progress: Progress<MotorWait, ()>, answers: Seq<Answer>)
    requires
        statuses_are_faults(answers),
        progress.result() != Some(Ok::<(), DriverError>(())),
    ensures
        run_wait(progress, answers).result != Some(Ok::<(), DriverError>(())),
    decreases answers.len(),
{
    if let Progress::Pending(wait, _) = progress {
        if answers.len() > 0 {
            let next = wait.spec_resume(answers[0].now_ms, answers[0].response);
            let rest = answers.drop_first();
            assert forall|i: int|
                #![trigger rest[i]]
                0 <= i < rest.len() && rest[i].response
                    is Status implies rest[i].response.reports_fault() by {
                assert(rest[i] == answers[i + 1]);
            }
            lemma_faults_never_succeed_from(next, rest);
        }
    }
}

/// A wait on a motor that only ever reports faults never succeeds, whatever
/// else the host answers and however long it goes on.
pub proof fn lemma_faults_never_succeed(
    id: u8,
    timeout_ms: u64,
    now_ms: u64,
    answers: Seq<Answer>,
)
    requires
        statuses_are_faults(answers),
    ensures
        run_wait(begun_wait(id, timeout_ms, now_ms), answers).result != Some(
            Ok::<(), DriverError>(()),
        ),
{
    lemma_faults_never_succeed_from(begun_wait(id, timeout_ms, now_ms), answers);
}

/// The first poll of a wait, if the budget lasts until then and the motor
/// reports a fault, ends the wait with that fault: two requests were made,
/// the grace delay and the poll, and no release.
pub proof fn lemma_fault_ends_wait(id: u8, timeout_ms: u64, now_ms: u64, answers: Seq<Answer>)
    requires
        answers.len() >= 2,
        elapsed_ms(now_ms, answers[0].now_ms) <= timeout_ms,
        answers[1].response.reports_fault(),
    ensures
        run_wait(begun_wait(id, timeout_ms, now_ms), answers) == (Trace::<()> {
            requests: seq![
                Request::Sleep { millis: GRACE_DELAY_MS },
                Request::Motor(MotorCommand::QueryStatus { motor: id }),
            ],
            result: Some(Err(DriverError::BadMotorStatus(answers[1].response->Status_0))),
        }),
{
    let first = begun_wait(id, timeout_ms, now_ms);
    let wait = first->Pending_0;
    let second = wait.spec_resume(answers[0].now_ms, answers[0].response);
    let tail = answers.drop_first();
    assert(tail[0] == answers[1]);
    let third = second->Pending_0.spec_resume(tail[0].now_ms, tail[0].response);
    assert(third is Finished);
    assert(run_wait(third, tail.drop_first()).requests =~= Seq::<Request>::empty());
    let inner = run_wait(second, tail);
    assert(inner.requests =~= seq![Request::Motor(MotorCommand::QueryStatus { motor: id })]);
    let outer = run_wait(first, answers);
    assert(outer.requests =~= seq![
        Request::Sleep { millis: GRACE_DELAY_MS },
        Request::Motor(MotorCommand::QueryStatus { motor: id }),
    ]);
}

proof fn lemma_unsettled_wait_from(wait: MotorWait, request: Request, answers: Seq<Answer>)
    requires
        wait.phase is Polling ==> polls_in_motion(answers, false),
        wait.phase is Resting ==> polls_in_motion(answers, true),
        (request is Motor && request->Motor_0 is Release) == (wait.phase is Releasing),
        wait.phase is Releasing ==> request == Request::Motor(
            MotorCommand::Release { motor: wait.motor },
        ),
    ensures
        ({
            let trace = run_wait(Progress::Pending(wait, request), answers);
            &&& trace.result is None || trace.result == Some(
                Err::<(), DriverError>(DriverError::WaitingForStopTimedOut),
            )
            &&& trace.result is Some ==> release_count(trace.requests) == 1
            &&& trace.result is None ==> release_count(trace.requests) <= 1
            &&& trace.result is Some ==> trace.requests.last() == Request::Motor(
                MotorCommand::Release { motor: wait.motor },
            )
        }),
    decreases answers.len(),
{
    let trace = run_wait(Progress::Pending(wait, request), answers);
    if answers.len() == 0 {
        lemma_release_count_push_front(request, Seq::empty());
        assert(seq![request] + Seq::<Request>::empty() =~= seq![request]);
    } else {
        let next = wait.spec_resume(answers[0].now_ms, answers[0].response);
        let rest = answers.drop_first();
        let inner = run_wait(next, rest);
        lemma_release_count_push_front(request, inner.requests);
        assert(trace.requests == seq![request] + inner.requests);
        match next {
            Progress::Finished(result) => {
                assert(inner.requests =~= Seq::<Request>::empty());
                assert(seq![request] + inner.requests =~= seq![request]);
                if wait.phase is Polling {
                    assert(answers[0].response is Status);
                }
            },
            Progress::Pending(after, asked) => {
                if !(after.phase is Releasing) {
                    assert forall|i: int|
                        #![trigger rest[i]]
                        0 <= i < rest.len() && (i % 2 == 1) == (after.phase
                            is Resting) implies rest[i].response.reports_motion() by {
                        assert(rest[i] == answers[i + 1]);
                    }
                }
                lemma_unsettled_wait_from(after, asked, rest);
                assert(inner.requests.len() > 0);
                assert((seq![request] + inner.requests).last() == inner.requests.last());
            },
        }
    }
}

/// A wait on a motor that stays in motion can only end by running out of
/// time. While it goes on it releases nothing; when it ends, the release is
/// the last request it made and the only release.
///
/// The host answers the grace delay first and a poll with every second
/// answer after it, so the polls are the answers at odd places.
pub proof fn lemma_unsettled_wait_times_out(
    id: u8,
    timeout_ms: u64,
    now_ms: u64,
    answers: Seq<Answer>,
)
    requires
        polls_in_motion(answers, true),
    ensures
        ({
            let trace = run_wait(begun_wait(id, timeout_ms, now_ms), answers);
            &&& trace.result is None || trace.result == Some(
                Err::<(), DriverError>(DriverError::WaitingForStopTimedOut),
            )
            &&& trace.result is Some ==> release_count(trace.requests) == 1
            &&& trace.result is None ==> release_count(trace.requests) <= 1
            &&& trace.result is Some ==> trace.requests.last() == Request::Motor(
                MotorCommand::Release { motor: id },
            )
        }),
{
    let first = begun_wait(id, timeout_ms, now_ms);
    lemma_unsettled_wait_from(first->Pending_0, first->Pending_1, answers);
}

proof fn lemma_spent_budget_ends_wait_from(
    wait: MotorWait,
    request: Request,
    answers: Seq<Answer>,
    late: int,
)
    requires
        wait.phase is Polling ==> polls_in_motion(answers, false) && late % 2 == 1,
        wait.phase is Resting ==> polls_in_motion(answers, true) && late % 2 == 0,
        0 <= late,
        late + 1 < answers.len(),
        wait.timed_out(answers[late].now_ms),
    ensures
        run_wait(Progress::Pending(wait, request), answers).result is Some,
    decreases answers.len(),
{
    let next = wait.spec_resume(answers[0].now_ms, answers[0].response);
    let rest = answers.drop_first();
    assert(rest[0] == answers[1]);
    match next {
        Progress::Finished(_) => {
            assert(run_wait(next, rest).result is Some);
        },
        Progress::Pending(after, asked) => {
            if after.phase is Releasing {
                let last = after.spec_resume(rest[0].now_ms, rest[0].response);
                assert(last is Finished);
                assert(run_wait(last, rest.drop_first()).result is Some);
            } else {
                assert(late > 0);
                assert forall|i: int|
                    #![trigger rest[i]]
                    0 <= i < rest.len() && (i % 2 == 1) == (after.phase
                        is Resting) implies rest[i].response.reports_motion() by {
                    assert(rest[i] == answers[i + 1]);
                }
                assert(rest[late - 1] == answers[late]);
                lemma_spent_budget_ends_wait_from(after, asked, rest, late - 1);
            }
        },
    }
}

/// A wait on a motor that stays in motion does end: if one of the delays is
/// over only after the budget is spent, and the host goes on to answer the
/// request that follows it, the wait has failed with a timeout by then.
///
/// The delays are the answers at even places, `late` being one of them.
pub proof fn lemma_spent_budget_ends_wait(
    id: u8,
    timeout_ms: u64,
    now_ms: u64,
    answers: Seq<Answer>,
    late: int,
)
    requires
        polls_in_motion(answers, true),
        0 <= late,
        late + 1 < answers.len(),
        late % 2 == 0,
        elapsed_ms(now_ms, answers[late].now_ms) > timeout_ms,
    ensures
        run_wait(begun_wait(id, timeout_ms, now_ms), answers).result == Some(
            Err::<(), DriverError>(DriverError::WaitingForStopTimedOut),
        ),
{
    let first = begun_wait(id, timeout_ms, now_ms);
    lemma_spent_budget_ends_wait_from(first->Pending_0, first->Pending_1, answers, late);
    lemma_unsettled_wait_from(first->Pending_0, first->Pending_1, answers);
}

} // verus!
