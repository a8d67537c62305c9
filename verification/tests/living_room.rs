use blinds::config::{LivingRoomBlindsConfig, MqttConfig};
use blinds::driver::living_room_blinds::{LivingRoomBlinds, LivingRoomOperation};
use blinds::driver::motor::{LedColor, MotorCommand, MotorStatus, BROADCAST_ID};
use blinds::driver::protocol::{Progress, Request, Response};
use blinds::driver::{Blinds, BlindsState, Turn};
use blinds::error::DriverError;
use blinds::fraction::Fraction;

const FLIP: u8 = 2;
const SLIDE: u8 = 1;

fn config(left: Option<i32>, right: Option<i32>) -> LivingRoomBlindsConfig {
    LivingRoomBlindsConfig {
        serial_port: String::from("/dev/ttyUSB0"),
        slide_motor_id: SLIDE,
        flip_motor_id: FLIP,
        flip_motor_left: left,
        flip_motor_right: right,
        mqtt: MqttConfig::default(),
    }
}

fn room(left: Option<i32>, right: Option<i32>, state: BlindsState) -> LivingRoomBlinds {
    LivingRoomBlinds { config: config(left, right), state }
}

fn fraction(millionths: i64) -> Fraction {
    Fraction { millionths }
}

/// A host with motors that obey: the flip motor stands at `position` until
/// it is told to move, and every motor has settled when it is polled. The
/// request `fails`, if it comes, is answered with a failure.
struct Host {
    now: u64,
    position: i32,
    fails: Option<Request>,
    requests: Vec<Request>,
    notices: Vec<BlindsState>,
}

impl Host {
    fn new(position: i32) -> Host {
        Host { now: 0, position, fails: None, requests: Vec::new(), notices: Vec::new() }
    }

    fn answer(&mut self, request: Request) -> Response {
        self.requests.push(request);
        if self.fails == Some(request) {
            return Response::Failed;
        }
        match request {
            Request::Sleep { millis } => {
                self.now += millis;
                Response::Done
            }
            Request::Persist => Response::Done,
            Request::Motor(command) => match command {
                MotorCommand::QueryPosition { .. } => Response::Position(self.position),
                MotorCommand::QueryStatus { .. } => Response::Status(MotorStatus::Holding),
                MotorCommand::QueryIndicator { .. } => Response::Indicator(LedColor::Off),
                MotorCommand::MoveTo { motor, target, .. } => {
                    if motor == FLIP {
                        self.position = target;
                    }
                    Response::Done
                }
                _ => Response::Done,
            },
        }
    }

    fn run(
        &mut self,
        room: &mut LivingRoomBlinds,
        mut turn: Turn<LivingRoomOperation>,
    ) -> Result<(), DriverError> {
        loop {
            if let Some(state) = turn.notify {
                self.notices.push(state);
            }
            match turn.progress {
                Progress::Finished(result) => return result,
                Progress::Pending(operation, request) => {
                    let response = self.answer(request);
                    turn = room.resume(operation, self.now, response);
                }
            }
        }
    }
}

fn flip_to(target: i32) -> Vec<Request> {
    vec![
        Request::Motor(MotorCommand::MoveTo { motor: FLIP, target, current_limit: 400 }),
        Request::Sleep { millis: 1_000 },
        Request::Motor(MotorCommand::QueryStatus { motor: FLIP }),
        Request::Motor(MotorCommand::Release { motor: FLIP }),
    ]
}

fn measured_flip_to(target: i32) -> Vec<Request> {
    let mut requests = vec![Request::Motor(MotorCommand::QueryPosition { motor: FLIP })];
    requests.extend(flip_to(target));
    requests
}

fn slide(speed: i32) -> Vec<Request> {
    vec![
        Request::Motor(MotorCommand::Rotate { motor: SLIDE, speed, current_limit: 400 }),
        Request::Sleep { millis: 1_000 },
        Request::Motor(MotorCommand::QueryStatus { motor: SLIDE }),
        Request::Motor(MotorCommand::Release { motor: SLIDE }),
    ]
}

#[test]
fn new_room_is_in_state_other_and_releases_all_motors() {
    let (room, first) = LivingRoomBlinds::new(config(None, None));
    assert_eq!(room.state(), BlindsState::Other);
    assert_eq!(first, MotorCommand::Release { motor: BROADCAST_ID });
    assert_eq!(BROADCAST_ID, 254);
    assert!(room.needs_calibration());
}

#[test]
fn needs_calibration_until_both_bounds_are_known() {
    assert!(room(None, None, BlindsState::Other).needs_calibration());
    assert!(room(Some(1), None, BlindsState::Other).needs_calibration());
    assert!(room(None, Some(1), BlindsState::Other).needs_calibration());
    assert!(!room(Some(1), Some(2), BlindsState::Other).needs_calibration());
}

#[test]
fn center_is_the_midpoint_of_the_bounds() {
    assert_eq!(config(Some(100), Some(-300)).flip_motor_center(), Some(-100));
    assert_eq!(config(Some(0), Some(900)).flip_motor_center(), Some(450));
    assert_eq!(config(Some(1), Some(2)).flip_motor_center(), Some(2));
    assert_eq!(config(Some(-1), Some(-2)).flip_motor_center(), Some(-2));
    assert_eq!(config(Some(i32::MAX), Some(i32::MAX)).flip_motor_center(), Some(i32::MAX));
    assert_eq!(config(Some(i32::MIN), Some(i32::MIN)).flip_motor_center(), Some(i32::MIN));
    assert_eq!(config(Some(3), None).flip_motor_center(), None);
    assert_eq!(config(None, Some(3)).flip_motor_center(), None);
}

#[test]
fn open_flips_to_the_center_and_slides_open() {
    let mut room = room(Some(100), Some(-300), BlindsState::Other);
    let mut host = Host::new(100);
    let turn = room.open();
    assert_eq!(room.state(), BlindsState::Opening);
    assert_eq!(host.run(&mut room, turn), Ok(()));
    assert_eq!(room.state(), BlindsState::Open);
    assert_eq!(host.notices, vec![BlindsState::Opening, BlindsState::Open]);
    let mut expected = measured_flip_to(-100);
    expected.extend(slide(-340));
    assert_eq!(host.requests, expected);
}

#[test]
fn open_twice_moves_the_motors_once() {
    let mut room = room(Some(100), Some(-300), BlindsState::Closed);
    let mut host = Host::new(100);
    let turn = room.open();
    assert_eq!(host.run(&mut room, turn), Ok(()));
    let moved = host.requests.len();
    assert!(moved > 0);
    let before = room.clone_for_test();
    let turn = room.open();
    assert_eq!(turn, Turn { notify: None, progress: Progress::Finished(Ok(())) });
    assert_eq!(host.run(&mut room, turn), Ok(()));
    assert_eq!(host.requests.len(), moved);
    assert_eq!(room, before);
    assert_eq!(host.notices, vec![BlindsState::Opening, BlindsState::Open]);
}

trait CloneForTest {
    fn clone_for_test(&self) -> Self;
}

impl CloneForTest for LivingRoomBlinds {
    fn clone_for_test(&self) -> Self {
        LivingRoomBlinds { config: self.config.clone(), state: self.state }
    }
}

#[test]
fn close_centers_slides_closed_and_flips_left() {
    let mut room = room(Some(100), Some(-300), BlindsState::Open);
    let mut host = Host::new(-100);
    let turn = room.close();
    assert_eq!(room.state(), BlindsState::Closing);
    assert_eq!(host.run(&mut room, turn), Ok(()));
    assert_eq!(room.state(), BlindsState::Closed);
    assert_eq!(host.notices, vec![BlindsState::Closing, BlindsState::Closed]);
    // The flip motor is at the center already, so the first motion only
    // releases it.
    let mut expected = vec![
        Request::Motor(MotorCommand::QueryPosition { motor: FLIP }),
        Request::Motor(MotorCommand::Release { motor: FLIP }),
    ];
    expected.extend(slide(340));
    expected.extend(flip_to(100));
    assert_eq!(host.requests, expected);
}

#[test]
fn close_twice_moves_the_motors_once() {
    let mut room = room(Some(100), Some(-300), BlindsState::Other);
    let mut host = Host::new(0);
    let turn = room.close();
    assert_eq!(host.run(&mut room, turn), Ok(()));
    let moved = host.requests.len();
    let turn = room.close();
    assert_eq!(turn, Turn { notify: None, progress: Progress::Finished(Ok(())) });
    assert_eq!(host.requests.len(), moved);
    assert_eq!(room.state(), BlindsState::Closed);
}

#[test]
fn toggle_opens_closed_blinds_and_closes_all_others() {
    for (from, to) in [
        (BlindsState::Closed, BlindsState::Open),
        (BlindsState::Closing, BlindsState::Open),
        (BlindsState::Open, BlindsState::Closed),
        (BlindsState::Opening, BlindsState::Closed),
        (BlindsState::Partial, BlindsState::Closed),
        (BlindsState::Other, BlindsState::Closed),
    ] {
        let mut room = room(Some(100), Some(-300), from);
        let mut host = Host::new(0);
        let turn = room.toggle();
        assert_eq!(host.run(&mut room, turn), Ok(()));
        assert_eq!(room.state(), to, "toggle from {:?}", from);
        assert!(!host.requests.is_empty());
    }
}

#[test]
fn partial_open_rejects_fractions_out_of_range() {
    for millionths in [-1, 1_000_001, -1_000_000, 2_000_000, i64::MIN, i64::MAX] {
        for state in [BlindsState::Open, BlindsState::Closed, BlindsState::Other] {
            let mut room = room(Some(100), Some(-300), state);
            let mut host = Host::new(0);
            let turn = room.partial_open(fraction(millionths));
            assert_eq!(
                turn.progress,
                Progress::Finished(Err(DriverError::PartialPositionOutOfRange))
            );
            assert_eq!(
                host.run(&mut room, turn),
                Err(DriverError::PartialPositionOutOfRange)
            );
            assert!(host.requests.is_empty());
            assert_eq!(room.config, config(Some(100), Some(-300)));
        }
    }
    // Out of range is found out before the missing calibration.
    let mut room = room(None, None, BlindsState::Other);
    let turn = room.partial_open(fraction(1_500_000));
    assert_eq!(turn.progress, Progress::Finished(Err(DriverError::PartialPositionOutOfRange)));
}

fn partial_target(left: i32, right: i32, millionths: i64) -> i32 {
    let mut room = room(Some(left), Some(right), BlindsState::Closed);
    // Far away from every target, so that the flip motor has to move.
    let mut host = Host::new(1_000_000);
    let turn = room.partial_open(fraction(millionths));
    assert_eq!(host.run(&mut room, turn), Ok(()));
    assert_eq!(room.state(), BlindsState::Partial);
    assert_eq!(host.notices, vec![BlindsState::Opening, BlindsState::Partial]);
    assert_eq!(host.requests.len(), 5);
    match host.requests[1] {
        Request::Motor(MotorCommand::MoveTo { motor: FLIP, target, current_limit: 400 }) => target,
        other => panic!("expected the flip motor to be moved, got {:?}", other),
    }
}

#[test]
fn partial_open_interpolates_between_closed_and_center() {
    assert_eq!(partial_target(100, -300, 0), 100);
    assert_eq!(partial_target(100, -300, 1_000_000), -100);
    assert_eq!(partial_target(100, -300, 500_000), 0);
    assert_eq!(partial_target(100, -300, 250_000), 50);
    assert_eq!(partial_target(100, -300, 1), 100);
    // Half a tenth of a degree is rounded away from zero.
    assert_eq!(partial_target(100, -300, 2_499), 100);
    assert_eq!(partial_target(100, -300, 2_500), 99);
    assert_eq!(partial_target(-300, 100, 500_000), -200);
    assert_eq!(partial_target(0, 2_000, 333_333), 333);
    assert_eq!(partial_target(i32::MIN, i32::MAX, 1_000_000), -1);
    assert_eq!(partial_target(i32::MAX, i32::MIN, 0), i32::MAX);
}

#[test]
fn partial_open_works_in_tenths_of_a_degree() {
    // Bounds of 100 and -300 degrees are 1000 and -3000 tenths.
    assert_eq!(partial_target(1_000, -3_000, 0), 1_000);
    assert_eq!(partial_target(1_000, -3_000, 1_000_000), -1_000);
    assert_eq!(partial_target(1_000, -3_000, 100_000), 800);
}

#[test]
fn partial_open_from_open_blinds_slides_closed_first() {
    let mut room = room(Some(100), Some(-300), BlindsState::Open);
    let mut host = Host::new(1_000);
    let turn = room.partial_open(fraction(500_000));
    assert_eq!(host.run(&mut room, turn), Ok(()));
    let mut expected = measured_flip_to(-100);
    expected.extend(slide(340));
    expected.extend(measured_flip_to(0));
    assert_eq!(host.requests, expected);
    assert_eq!(room.state(), BlindsState::Partial);
}

#[test]
fn partial_open_near_the_target_only_releases() {
    let mut room = room(Some(100), Some(-300), BlindsState::Closed);
    let mut host = Host::new(29);
    let turn = room.partial_open(fraction(500_000));
    assert_eq!(host.run(&mut room, turn), Ok(()));
    assert_eq!(
        host.requests,
        vec![
            Request::Motor(MotorCommand::QueryPosition { motor: FLIP }),
            Request::Motor(MotorCommand::Release { motor: FLIP }),
        ]
    );
    assert_eq!(room.state(), BlindsState::Partial);
}

#[test]
fn operations_fail_without_calibration_and_touch_no_motor() {
    let mut host = Host::new(0);
    let mut uncalibrated = room(Some(5), None, BlindsState::Other);
    let turn = uncalibrated.open();
    assert_eq!(turn.notify, Some(BlindsState::Opening));
    assert_eq!(host.run(&mut uncalibrated, turn), Err(DriverError::MissingMotorConfig));
    assert_eq!(uncalibrated.state(), BlindsState::Opening);
    let turn = uncalibrated.close();
    assert_eq!(host.run(&mut uncalibrated, turn), Err(DriverError::MissingMotorConfig));
    assert_eq!(uncalibrated.state(), BlindsState::Closing);
    let turn = uncalibrated.partial_open(fraction(500_000));
    assert_eq!(host.run(&mut uncalibrated, turn), Err(DriverError::MissingMotorConfig));
    assert_eq!(uncalibrated.state(), BlindsState::Opening);
    let turn = uncalibrated.toggle();
    assert_eq!(host.run(&mut uncalibrated, turn), Err(DriverError::MissingMotorConfig));
    assert!(host.requests.is_empty());
}

#[test]
fn failure_leaves_the_room_in_its_transitional_state() {
    let mut room = room(Some(100), Some(-300), BlindsState::Closed);
    let mut host = Host::new(100);
    host.fails =
        Some(Request::Motor(MotorCommand::Rotate { motor: SLIDE, speed: -340, current_limit: 400 }));
    let turn = room.open();
    assert_eq!(host.run(&mut room, turn), Err(DriverError::Transport));
    assert_eq!(room.state(), BlindsState::Opening);
    assert_eq!(host.notices, vec![BlindsState::Opening]);
    // Nothing follows the request that failed.
    assert_eq!(host.requests.last(), host.fails.as_ref());
}

#[test]
fn single_motions_begin_as_the_operations_do() {
    let room = room(Some(100), Some(-300), BlindsState::Other);
    assert!(matches!(
        room.flip_open(),
        Progress::Pending(_, Request::Motor(MotorCommand::QueryPosition { motor: FLIP }))
    ));
    assert!(matches!(
        room.flip_close_left(),
        Progress::Pending(
            _,
            Request::Motor(MotorCommand::MoveTo { motor: FLIP, target: 100, current_limit: 400 })
        )
    ));
    assert!(matches!(
        room.flip_close_right(),
        Progress::Pending(
            _,
            Request::Motor(MotorCommand::MoveTo { motor: FLIP, target: -300, current_limit: 400 })
        )
    ));
    assert!(matches!(
        room.slide_open(),
        Progress::Pending(
            _,
            Request::Motor(MotorCommand::Rotate { motor: SLIDE, speed: -340, current_limit: 400 })
        )
    ));
    assert!(matches!(
        room.slide_closed(),
        Progress::Pending(
            _,
            Request::Motor(MotorCommand::Rotate { motor: SLIDE, speed: 340, current_limit: 400 })
        )
    ));
    assert!(matches!(
        room.flip_partial_left(fraction(500_000)),
        Progress::Pending(_, Request::Motor(MotorCommand::QueryPosition { motor: FLIP }))
    ));
    assert!(matches!(
        room.flip_partial_left(fraction(-5)),
        Progress::Finished(Err(DriverError::PartialPositionOutOfRange))
    ));
    assert!(matches!(
        room.calibrate_flipper(),
        Progress::Pending(_, Request::Motor(MotorCommand::QueryIndicator { motor: FLIP }))
    ));
    let uncalibrated = self::room(None, Some(3), BlindsState::Other);
    assert!(matches!(
        uncalibrated.flip_open(),
        Progress::Finished(Err(DriverError::MissingMotorConfig))
    ));
    assert!(matches!(
        uncalibrated.flip_close_left(),
        Progress::Finished(Err(DriverError::MissingMotorConfig))
    ));
    assert!(matches!(
        uncalibrated.flip_partial_left(fraction(0)),
        Progress::Finished(Err(DriverError::MissingMotorConfig))
    ));
    assert!(matches!(uncalibrated.flip_close_right(), Progress::Pending(_, _)));
}

#[test]
fn reset_restarts_all_motors_and_pauses() {
    let room = room(None, None, BlindsState::Other);
    let mut requests = Vec::new();
    let mut progress = room.reset_motors();
    let result = loop {
        match progress {
            Progress::Finished(result) => break result,
            Progress::Pending(routine, request) => {
                requests.push(request);
                progress = routine.resume(0, Response::Done);
            }
        }
    };
    assert_eq!(result, Ok(()));
    assert_eq!(
        requests,
        vec![
            Request::Motor(MotorCommand::Reset { motor: BROADCAST_ID }),
            Request::Sleep { millis: 2_000 },
        ]
    );
}

#[test]
fn reset_check_asks_both_motors() {
    for (flip, slide, expected) in [
        (LedColor::Off, LedColor::Off, false),
        (LedColor::Magenta, LedColor::Off, true),
        (LedColor::Off, LedColor::Magenta, true),
        (LedColor::Red, LedColor::Blue, true),
    ] {
        let room = room(None, None, BlindsState::Other);
        let mut asked = Vec::new();
        let mut progress = room.were_motors_reset();
        let result = loop {
            match progress {
                Progress::Finished(result) => break result,
                Progress::Pending(check, request) => {
                    asked.push(request);
                    let color = if asked.len() == 1 { flip } else { slide };
                    progress = check.resume(Response::Indicator(color));
                }
            }
        };
        assert_eq!(result, Ok(expected));
        assert_eq!(
            asked,
            vec![
                Request::Motor(MotorCommand::QueryIndicator { motor: FLIP }),
                Request::Motor(MotorCommand::QueryIndicator { motor: SLIDE }),
            ]
        );
    }
    let room = room(None, None, BlindsState::Other);
    match room.were_motors_reset() {
        Progress::Pending(check, _) => {
            assert_eq!(check.resume(Response::Failed), Progress::Finished(Err(DriverError::Transport)))
        }
        Progress::Finished(_) => panic!("the check asks at least one motor"),
    }
}
