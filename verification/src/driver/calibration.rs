//! Learning the travel of the flip motor.
//!
//! The flip motor is moved by hand. The procedure notes where the motor
//! stands, blinks its indicator until somebody has moved it by more than
//! [`MOTION_THRESHOLD`], and then, for [`SAMPLING_WINDOW_MS`], follows the
//! motor and keeps the lowest and the highest position it sees. Those two are
//! the ends of the travel.

use crate::driver::motor::{LedColor, MotorCommand};
use crate::driver::protocol::{Progress, Request, Response};
use crate::driver::wait::{elapsed_ms, Answer, Trace};
use crate::error::DriverError;
use vstd::prelude::*;

verus! {

/// A motor further than this from where it started, in tenths of a degree,
/// is being moved.
pub const MOTION_THRESHOLD: i32 = 200;

/// Pause between two looks at the motor while nobody has moved it yet.
pub const DETECTION_POLL_MS: u64 = 100;

/// How long the motor is followed once it moves.
pub const SAMPLING_WINDOW_MS: u64 = 20_000;

/// Pause between two samples while the motor is followed.
pub const SAMPLING_POLL_MS: u64 = 20;

/// Colour that invites the operator to move the motor; it alternates with
/// `Off` every second.
pub const WAITING_COLOR: LedColor = LedColor::Yellow;

/// Colour shown while the motor is followed.
pub const SAMPLING_COLOR: LedColor = LedColor::Green;

/// The ends of a motor's travel, `left <= right`.
#[derive(Clone, Copy, Debug, PartialEq, Eq, Structural)]
pub struct Bounds {
    pub left: i32,
    pub right: i32,
}

/// What the procedure is waiting for.
#[derive(Clone, Copy, Debug, PartialEq, Eq, Structural)]
pub enum CalibrationPhase {
    /// The colour the indicator shows, to put it back at the end.
    ReadingIndicator,
    /// The position from which motion is measured.
    ReadingStart,
    /// The acknowledgement of the first invitation to move the motor.
    Announcing,
    /// A position, to see whether the motor has been moved.
    Watching,
    /// The acknowledgement of a blink.
    Blinking,
    /// The pause before the next look.
    Idling,
    /// The acknowledgement of the colour that opens the sampling window.
    Marking,
    /// A position inside the sampling window.
    Sampling,
    /// The pause before the next sample.
    Settling,
    /// The acknowledgement of the colour that closes the sampling window.
    Confirming,
    /// The acknowledgement of the indicator's old colour.
    Restoring,
}

/// A calibration of the flip motor under way.
#[derive(Clone, Copy, Debug, PartialEq, Eq, Structural)]
pub struct FlipperCalibration {
    pub motor: u8,
    pub phase: CalibrationPhase,
    /// The colour to put back at the end.
    pub restore: LedColor,
    /// Where the motor stood at the beginning.
    pub start: i32,
    /// The lowest position seen so far, the start included.
    pub low: i32,
    /// The highest position seen so far, the start included.
    pub high: i32,
    /// The host's clock when the start was read.
    pub watch_started_ms: u64,
    /// The host's clock when the sampling window opened.
    pub window_started_ms: u64,
}

/// Whether a motor at `current` has been moved away from `start`.
pub open spec fn has_moved(start: i32, current: i32) -> bool {
    start - current > MOTION_THRESHOLD || current - start > MOTION_THRESHOLD
}

/// The colour of the blink at `now_ms`: the waiting colour during every
/// even second since the watch began, `Off` during every odd one.
pub open spec fn blink_color(watch_started_ms: u64, now_ms: u64) -> LedColor {
    if (elapsed_ms(watch_started_ms, now_ms) / 1000) % 2 == 0 {
        WAITING_COLOR
    } else {
        LedColor::Off
    }
}

pub open spec fn min_position(a: i32, b: i32) -> i32 {
    if a <= b {
        a
    } else {
        b
    }
}

pub open spec fn max_position(a: i32, b: i32) -> i32 {
    if a >= b {
        a
    } else {
        b
    }
}

fn elapsed(started_ms: u64, now_ms: u64) -> (passed: u64)
    ensures
        passed == elapsed_ms(started_ms, now_ms),
{
    if now_ms >= started_ms {
        now_ms - started_ms
    } else {
        0
    }
}

impl FlipperCalibration {
    /// The calibration as it stands when it has just begun.
    pub open spec fn spec_begin(motor: u8) -> Progress<FlipperCalibration, Bounds> {
        Progress::Pending(
            FlipperCalibration {
                motor,
                phase: CalibrationPhase::ReadingIndicator,
                restore: LedColor::Off,
                start: 0,
                low: 0,
                high: 0,
                watch_started_ms: 0,
                window_started_ms: 0,
            },
            Request::Motor(MotorCommand::QueryIndicator { motor }),
        )
    }

    /// Begins to calibrate `motor`. The first request reads the indicator.
    pub fn begin(motor: u8) -> (progress: Progress<FlipperCalibration, Bounds>)
        ensures
            progress == Self::spec_begin(motor),
    {
        Progress::Pending(
            FlipperCalibration {
                motor,
                phase: CalibrationPhase::ReadingIndicator,
                restore: LedColor::Off,
                start: 0,
                low: 0,
                high: 0,
                watch_started_ms: 0,
                window_started_ms: 0,
            },
            Request::Motor(MotorCommand::QueryIndicator { motor }),
        )
    }

    /// The calibration in another phase.
    pub open spec fn in_phase(self, phase: CalibrationPhase) -> FlipperCalibration {
        FlipperCalibration { phase, ..self }
    }

    /// The request that reads the motor's position.
    pub open spec fn look(self) -> Request {
        Request::Motor(MotorCommand::QueryPosition { motor: self.motor })
    }

    /// The request that shows `color` on the motor's indicator.
    pub open spec fn show(self, color: LedColor) -> Request {
        Request::Motor(MotorCommand::SetIndicator { motor: self.motor, color })
    }

    /// Whether the sampling window is still open at `now_ms`.
    pub open spec fn window_open(self, now_ms: u64) -> bool {
        elapsed_ms(self.window_started_ms, now_ms) < SAMPLING_WINDOW_MS
    }

    /// What the procedure has learned: the lowest and the highest position
    /// seen.
    pub open spec fn bounds(self) -> Bounds {
        Bounds { left: self.low, right: self.high }
    }

    /// The decision the calibration takes on an answer.
    ///
    /// | waiting for | answer | decision |
    /// |---|---|---|
    /// | the indicator | a colour | keep it; read the position |
    /// | the start | a position | keep it as start, lowest and highest; start the watch; show the waiting colour |
    /// | the invitation | done | look at the position |
    /// | a look | a position past the threshold | show the sampling colour |
    /// | a look | any other position | blink |
    /// | a blink | done | pause |
    /// | the pause | any | look again |
    /// | the window's opening | done | open the window; take a sample |
    /// | a sample | a position | widen the bounds to hold it; pause |
    /// | the pause | any, window open | take a sample |
    /// | the pause | any, window over | show the sampling colour once more |
    /// | the window's closing | done | show the colour kept at the beginning |
    /// | the old colour | done | finished, with the bounds |
    ///
    /// Any other answer ends the calibration with a transport error.
    pub open spec fn spec_resume(self, now_ms: u64, response: Response) -> Progress<
        FlipperCalibration,
        Bounds,
    > {
        match self.phase {
            CalibrationPhase::ReadingIndicator => match response {
                Response::Indicator(color) => Progress::Pending(
                    FlipperCalibration {
                        phase: CalibrationPhase::ReadingStart,
                        restore: color,
                        ..self
                    },
                    self.look(),
                ),
                _ => Progress::Finished(Err(DriverError::Transport)),
            },
            CalibrationPhase::ReadingStart => match response {
                Response::Position(position) => Progress::Pending(
                    FlipperCalibration {
                        phase: CalibrationPhase::Announcing,
                        start: position,
                        low: position,
                        high: position,
                        watch_started_ms: now_ms,
                        ..self
                    },
                    self.show(WAITING_COLOR),
                ),
                _ => Progress::Finished(Err(DriverError::Transport)),
            },
            CalibrationPhase::Announcing => match response {
                Response::Done => Progress::Pending(
                    self.in_phase(CalibrationPhase::Watching),
                    self.look(),
                ),
                _ => Progress::Finished(Err(DriverError::Transport)),
            },
            CalibrationPhase::Watching => match response {
                Response::Position(position) => {
                    if has_moved(self.start, position) {
                        Progress::Pending(
                            self.in_phase(CalibrationPhase::Marking),
                            self.show(SAMPLING_COLOR),
                        )
                    } else {
                        Progress::Pending(
                            self.in_phase(CalibrationPhase::Blinking),
                            self.show(blink_color(self.watch_started_ms, now_ms)),
                        )
                    }
                },
                _ => Progress::Finished(Err(DriverError::Transport)),
            },
            CalibrationPhase::Blinking => match response {
                Response::Done => Progress::Pending(
                    self.in_phase(CalibrationPhase::Idling),
                    Request::Sleep { millis: DETECTION_POLL_MS },
                ),
                _ => Progress::Finished(Err(DriverError::Transport)),
            },
            CalibrationPhase::Idling => Progress::Pending(
                self.in_phase(CalibrationPhase::Watching),
                self.look(),
            ),
            CalibrationPhase::Marking => match response {
                Response::Done => Progress::Pending(
                    FlipperCalibration {
                        phase: CalibrationPhase::Sampling,
                        window_started_ms: now_ms,
                        ..self
                    },
                    self.look(),
                ),
                _ => Progress::Finished(Err(DriverError::Transport)),
            },
            CalibrationPhase::Sampling => match response {
                Response::Position(position) => Progress::Pending(
                    FlipperCalibration {
                        phase: CalibrationPhase::Settling,
                        low: min_position(self.low, position),
                        high: max_position(self.high, position),
                        ..self
                    },
                    Request::Sleep { millis: SAMPLING_POLL_MS },
                ),
                _ => Progress::Finished(Err(DriverError::Transport)),
            },
            CalibrationPhase::Settling => {
                if self.window_open(now_ms) {
                    Progress::Pending(self.in_phase(CalibrationPhase::Sampling), self.look())
                } else {
                    Progress::Pending(
                        self.in_phase(CalibrationPhase::Confirming),
                        self.show(SAMPLING_COLOR),
                    )
                }
            },
            CalibrationPhase::Confirming => match response {
                Response::Done => Progress::Pending(
                    self.in_phase(CalibrationPhase::Restoring),
                    self.show(self.restore),
                ),
                _ => Progress::Finished(Err(DriverError::Transport)),
            },
            CalibrationPhase::Restoring => match response {
                Response::Done => Progress::Finished(Ok(self.bounds())),
                _ => Progress::Finished(Err(DriverError::Transport)),
            },
        }
    }

    /// Whether the bounds hold the start. Every calibration that was begun
    /// and has read its start is in order.
    pub open spec fn in_order(self) -> bool {
        self.low <= self.start <= self.high
    }

    /// Takes the host's answer to the pending request and decides what comes
    /// next. `now_ms` is the host's clock at the time of the answer.
    pub fn resume(self, now_ms: u64, response: Response) -> (progress: Progress<
        FlipperCalibration,
        Bounds,
    >)
        ensures
            progress == self.spec_resume(now_ms, response),
            progress matches Progress::Pending(next, _) ==> {
                &&& next.motor == self.motor
                &&& self.phase is ReadingStart ==> next.in_order()
                &&& self.in_order() && !(self.phase is ReadingStart) ==> next.in_order()
                    && next.low <= self.low && self.high <= next.high
            },
            progress matches Progress::Finished(Ok(bounds)) ==> self.phase is Restoring && bounds
                == self.bounds(),
    {
        let look = Request::Motor(MotorCommand::QueryPosition { motor: self.motor });
        match self.phase {
            CalibrationPhase::ReadingIndicator => match response {
                Response::Indicator(color) => Progress::Pending(
                    FlipperCalibration {
                        phase: CalibrationPhase::ReadingStart,
                        restore: color,
                        ..self
                    },
                    look,
                ),
                _ => Progress::Finished(Err(DriverError::Transport)),
            },
            CalibrationPhase::ReadingStart => match response {
                Response::Position(position) => Progress::Pending(
                    FlipperCalibration {
                        phase: CalibrationPhase::Announcing,
                        start: position,
                        low: position,
                        high: position,
                        watch_started_ms: now_ms,
                        ..self
                    },
                    self.indicator(WAITING_COLOR),
                ),
                _ => Progress::Finished(Err(DriverError::Transport)),
            },
            CalibrationPhase::Announcing => match response {
                Response::Done => Progress::Pending(
                    FlipperCalibration { phase: CalibrationPhase::Watching, ..self },
                    look,
                ),
                _ => Progress::Finished(Err(DriverError::Transport)),
            },
            CalibrationPhase::Watching => match response {
                Response::Position(position) => {
                    let delta: i64 = self.start as i64 - position as i64;
                    if delta > MOTION_THRESHOLD as i64 || -delta > MOTION_THRESHOLD as i64 {
                        Progress::Pending(
                            FlipperCalibration { phase: CalibrationPhase::Marking, ..self },
                            self.indicator(SAMPLING_COLOR),
                        )
                    } else {
                        let seconds = elapsed(self.watch_started_ms, now_ms) / 1000;
                        let color = if seconds % 2 == 0 {
                            WAITING_COLOR
                        } else {
                            LedColor::Off
                        };
                        Progress::Pending(
                            FlipperCalibration { phase: CalibrationPhase::Blinking, ..self },
                            self.indicator(color),
                        )
                    }
                },
                _ => Progress::Finished(Err(DriverError::Transport)),
            },
            CalibrationPhase::Blinking => match response {
                Response::Done => Progress::Pending(
                    FlipperCalibration { phase: CalibrationPhase::Idling, ..self },
                    Request::Sleep { millis: DETECTION_POLL_MS },
                ),
                _ => Progress::Finished(Err(DriverError::Transport)),
            },
            CalibrationPhase::Idling => Progress::Pending(
                FlipperCalibration { phase: CalibrationPhase::Watching, ..self },
                look,
            ),
            CalibrationPhase::Marking => match response {
                Response::Done => Progress::Pending(
                    FlipperCalibration {
                        phase: CalibrationPhase::Sampling,
                        window_started_ms: now_ms,
                        ..self
                    },
                    look,
                ),
                _ => Progress::Finished(Err(DriverError::Transport)),
            },
            CalibrationPhase::Sampling => match response {
                Response::Position(position) => Progress::Pending(
                    FlipperCalibration {
                        phase: CalibrationPhase::Settling,
                        low: if self.low <= position {
                            self.low
                        } else {
                            position
                        },
                        high: if self.high >= position {
                            self.high
                        } else {
                            position
                        },
                        ..self
                    },
                    Request::Sleep { millis: SAMPLING_POLL_MS },
                ),
                _ => Progress::Finished(Err(DriverError::Transport)),
            },
            CalibrationPhase::Settling => {
                if elapsed(self.window_started_ms, now_ms) < SAMPLING_WINDOW_MS {
                    Progress::Pending(
                        FlipperCalibration { phase: CalibrationPhase::Sampling, ..self },
                        look,
                    )
                } else {
                    Progress::Pending(
                        FlipperCalibration { phase: CalibrationPhase::Confirming, ..self },
                        self.indicator(SAMPLING_COLOR),
                    )
                }
            },
            CalibrationPhase::Confirming => match response {
                Response::Done => Progress::Pending(
                    FlipperCalibration { phase: CalibrationPhase::Restoring, ..self },
                    self.indicator(self.restore),
                ),
                _ => Progress::Finished(Err(DriverError::Transport)),
            },
            CalibrationPhase::Restoring => match response {
                Response::Done => Progress::Finished(
                    Ok(Bounds { left: self.low, right: self.high }),
                ),
                _ => Progress::Finished(Err(DriverError::Transport)),
            },
        }
    }

    fn indicator(self, color: LedColor) -> (request: Request)
        ensures
            request == self.show(color),
    {
        Request::Motor(MotorCommand::SetIndicator { motor: self.motor, color })
    }
}

/// What a calibration does with a run of answers, the first of which
/// answers the request that `progress` is pending on. Answers past the end
/// of the calibration are not looked at.
pub open spec fn run_calibration(
    progress: Progress<FlipperCalibration, Bounds>,
    answers: Seq<Answer>,
) -> Trace<Bounds>
    decreases answers.len(),
{
    match progress {
        Progress::Finished(result) => Trace { requests: Seq::empty(), result: Some(result) },
        Progress::Pending(calibration, request) => {
            if answers.len() == 0 {
                Trace { requests: seq![request], result: None }
            } else {
                let rest = run_calibration(
                    calibration.spec_resume(answers[0].now_ms, answers[0].response),
                    answers.drop_first(),
                );
                Trace { requests: seq![request] + rest.requests, result: rest.result }
            }
        },
    }
}

/// The positions that a calibration samples in its window when it is given
/// the answers, in the order in which it samples them.
pub open spec fn sampled(calibration: FlipperCalibration, answers: Seq<Answer>) -> Seq<i32>
    decreases answers.len(),
{
    if answers.len() == 0 {
        Seq::empty()
    } else {
        let here = if calibration.phase is Sampling && answers[0].response is Position {
            seq![answers[0].response->Position_0]
        } else {
            Seq::empty()
        };
        match calibration.spec_resume(answers[0].now_ms, answers[0].response) {
            Progress::Pending(next, _) => here + sampled(next, answers.drop_first()),
            Progress::Finished(_) => here,
        }
    }
}

/// Whether `bounds` are the lowest and the highest of the positions: they
/// hold every one of them, and each is one of them.
pub open spec fn spans(bounds: Bounds, positions: Seq<i32>) -> bool {
    &&& forall|i: int|
        0 <= i < positions.len() ==> bounds.left <= #[trigger] positions[i] <= bounds.right
    &&& positions.contains(bounds.left)
    &&& positions.contains(bounds.right)
}

proof fn lemma_spans_grows(bounds: Bounds, low: i32, high: i32, first: i32, rest: Seq<i32>)
    requires
        low <= high,
        spans(bounds, seq![min_position(low, first), max_position(high, first)] + rest),
    ensures
        spans(bounds, seq![low, high] + seq![first] + rest),
{
    let narrow = seq![min_position(low, first), max_position(high, first)] + rest;
    let wide = seq![low, high] + seq![first] + rest;
    assert(narrow[0] == min_position(low, first));
    assert(narrow[1] == max_position(high, first));
    assert forall|i: int| 0 <= i < wide.len() implies bounds.left <= #[trigger] wide[i]
        <= bounds.right by {
        if i >= 3 {
            assert(wide[i] == narrow[i - 1]);
        }
    }
    assert forall|value: i32| narrow.contains(value) implies wide.contains(value) by {
        let at = choose|at: int| 0 <= at < narrow.len() && narrow[at] == value;
        if at >= 2 {
            assert(wide[at + 1] == value);
        } else if value == first {
            assert(wide[2] == value);
        } else if value == low {
            assert(wide[0] == value);
        } else {
            assert(wide[1] == value);
        }
    }
}

proof fn lemma_bounds_span_from(
    calibration: FlipperCalibration,
    request: Request,
    answers: Seq<Answer>,
)
    requires
        calibration.low <= calibration.high,
        !(calibration.phase is ReadingIndicator),
        !(calibration.phase is ReadingStart),
    ensures
        run_calibration(Progress::Pending(calibration, request), answers).result matches Some(
            Ok(bounds),
        ) ==> spans(bounds, seq![calibration.low, calibration.high] + sampled(calibration, answers)),
    decreases answers.len(),
{
    if answers.len() > 0 {
        let next = calibration.spec_resume(answers[0].now_ms, answers[0].response);
        let rest = answers.drop_first();
        let ends = seq![calibration.low, calibration.high];
        match next {
            Progress::Pending(after, asked) => {
                lemma_bounds_span_from(after, asked, rest);
                let trace = run_calibration(next, rest);
                if let Some(Ok(bounds)) = trace.result {
                    if calibration.phase is Sampling {
                        let first = answers[0].response->Position_0;
                        lemma_spans_grows(
                            bounds,
                            calibration.low,
                            calibration.high,
                            first,
                            sampled(after, rest),
                        );
                        assert(ends + (seq![first] + sampled(after, rest)) =~= ends + seq![first]
                            + sampled(after, rest));
                    } else {
                        assert(Seq::<i32>::empty() + sampled(after, rest) =~= sampled(after, rest));
                    }
                }
            },
            Progress::Finished(result) => {
                assert(run_calibration(next, rest).result == Some(result));
                if let Ok(bounds) = result {
                    assert(ends + Seq::<i32>::empty() =~= ends);
                    assert(ends[0] == bounds.left);
                    assert(ends[1] == bounds.right);
                }
            },
        }
    }
}

/// The bounds that a calibration finds are the lowest and the highest among
/// the position from which it started and the positions that it sampled in
/// its window.
///
/// The host answers the indicator query first and the first position
/// query second, so the start is the position in the second answer.
pub proof fn lemma_bounds_span_what_was_seen(motor: u8, answers: Seq<Answer>)
    ensures
        run_calibration(FlipperCalibration::spec_begin(motor), answers).result matches Some(
            Ok(bounds),
        ) ==> answers.len() >= 2 && answers[1].response is Position && spans(
            bounds,
            seq![answers[1].response->Position_0] + sampled(
                FlipperCalibration::spec_begin(motor)->Pending_0,
                answers,
            ),
        ) && bounds.left <= bounds.right,
{
    let begun = FlipperCalibration::spec_begin(motor);
    let first = begun->Pending_0;
    if answers.len() > 0 {
        let second = first.spec_resume(answers[0].now_ms, answers[0].response);
        let rest = answers.drop_first();
        match second {
            Progress::Finished(result) => {
                assert(run_calibration(second, rest).result == Some(result));
            },
            Progress::Pending(reading, asked) => {
                if rest.len() > 0 {
                    assert(rest[0] == answers[1]);
                    let third = reading.spec_resume(rest[0].now_ms, rest[0].response);
                    let tail = rest.drop_first();
                    match third {
                        Progress::Finished(result) => {
                            assert(run_calibration(third, tail).result == Some(result));
                        },
                        Progress::Pending(announcing, shown) => {
                            lemma_bounds_span_from(announcing, shown, tail);
                            let start = answers[1].response->Position_0;
                            let trace = run_calibration(third, tail);
                            if let Some(Ok(bounds)) = trace.result {
                                let seen = sampled(announcing, tail);
                                assert(sampled(reading, rest) =~= seen);
                                assert(sampled(first, answers) =~= seen);
                                let twice = seq![start, start] + seen;
                                let once = seq![start] + seen;
                                assert forall|i: int| 0 <= i < once.len() implies bounds.left
                                    <= #[trigger] once[i] <= bounds.right by {
                                    assert(once[i] == twice[i + 1]);
                                }
                                assert forall|value: i32| twice.contains(value) implies once.contains(
                                    value,
                                ) by {
                                    let at = choose|at: int|
                                        0 <= at < twice.len() && twice[at] == value;
                                    if at == 0 {
                                        assert(once[0] == value);
                                    } else {
                                        assert(once[at - 1] == value);
                                    }
                                }
                                assert(once[0] == start);
                            }
                        },
                    }
                }
            },
        }
    }
}

} // verus!
