use blinds::config::{BedroomBlindsConfig, MqttConfig};
use blinds::driver::bedroom_blinds::{BedroomBlinds, BedroomOperation};
use blinds::driver::motor::{LedColor, MotorCommand, MotorStatus, BROADCAST_ID};
use blinds::driver::protocol::{Progress, Request, Response};
use blinds::driver::{Blinds, BlindsState, Turn};
use blinds::error::DriverError;
use blinds::fraction::Fraction;

fn bedroom(top: Option<i32>, state: BlindsState) -> BedroomBlinds {
    BedroomBlinds {
        config: BedroomBlindsConfig {
            serial_port: String::from("/dev/ttyUSB0"),
            motor_id: 1,
            top_position: top,
            mqtt: MqttConfig::default(),
        },
        state,
    }
}

fn run(
    room: &mut BedroomBlinds,
    mut turn: Turn<BedroomOperation>,
    status: MotorStatus,
) -> (Vec<Request>, Vec<BlindsState>, Result<(), DriverError>) {
    let mut now = 0;
    let mut requests = Vec::new();
    let mut notices = Vec::new();
    loop {
        notices.extend(turn.notify);
        match turn.progress {
            Progress::Finished(result) => return (requests, notices, result),
            Progress::Pending(operation, request) => {
                requests.push(request);
                let response = match request {
                    Request::Sleep { millis } => {
                        now += millis;
                        Response::Done
                    }
                    Request::Motor(MotorCommand::QueryStatus { .. }) => Response::Status(status),
                    _ => Response::Done,
                };
                turn = room.resume(operation, now, response);
            }
        }
    }
}

#[test]
fn bedroom_starts_in_state_other() {
    let (room, first) = BedroomBlinds::new(BedroomBlindsConfig::default());
    assert_eq!(room.state(), BlindsState::Other);
    assert_eq!(first, MotorCommand::Release { motor: BROADCAST_ID });
    assert!(room.needs_calibration());
    assert!(!bedroom(Some(0), BlindsState::Other).needs_calibration());
}

#[test]
fn bedroom_open_caps_the_speed_and_lifts_to_just_below_the_top() {
    let mut room = bedroom(Some(2_000), BlindsState::Closed);
    let turn = room.open();
    let (requests, notices, result) = run(&mut room, turn, MotorStatus::Holding);
    assert_eq!(result, Ok(()));
    assert_eq!(room.state(), BlindsState::Open);
    assert_eq!(notices, vec![BlindsState::Opening, BlindsState::Open]);
    assert_eq!(
        requests,
        vec![
            Request::Motor(MotorCommand::SetMaxSpeed { motor: 1, speed: 340 }),
            Request::Motor(MotorCommand::MoveTo { motor: 1, target: 3_000, current_limit: 600 }),
            Request::Sleep { millis: 1_000 },
            Request::Motor(MotorCommand::QueryStatus { motor: 1 }),
            Request::Motor(MotorCommand::Release { motor: 1 }),
        ]
    );
}

#[test]
fn bedroom_close_lets_the_blind_all_the_way_down() {
    let mut room = bedroom(Some(2_000), BlindsState::Open);
    let turn = room.close();
    let (requests, notices, result) = run(&mut room, turn, MotorStatus::Limp);
    assert_eq!(result, Ok(()));
    assert_eq!(room.state(), BlindsState::Closed);
    assert_eq!(notices, vec![BlindsState::Closing, BlindsState::Closed]);
    assert_eq!(
        requests,
        vec![
            Request::Motor(MotorCommand::SetMaxSpeed { motor: 1, speed: 340 }),
            Request::Motor(MotorCommand::MoveTo { motor: 1, target: 47_000, current_limit: 400 }),
            Request::Sleep { millis: 1_000 },
            Request::Motor(MotorCommand::QueryStatus { motor: 1 }),
            Request::Motor(MotorCommand::Release { motor: 1 }),
        ]
    );
}

#[test]
fn bedroom_open_and_close_are_idempotent() {
    let mut room = bedroom(Some(2_000), BlindsState::Open);
    assert_eq!(room.open(), Turn { notify: None, progress: Progress::Finished(Ok(())) });
    assert_eq!(room.state(), BlindsState::Open);
    let mut room = bedroom(Some(2_000), BlindsState::Closed);
    assert_eq!(room.close(), Turn { notify: None, progress: Progress::Finished(Ok(())) });
    assert_eq!(room.state(), BlindsState::Closed);
}

#[test]
fn bedroom_without_top_touches_no_motor() {
    let mut room = bedroom(None, BlindsState::Other);
    let turn = room.open();
    let (requests, notices, result) = run(&mut room, turn, MotorStatus::Holding);
    assert_eq!(result, Err(DriverError::MissingMotorConfig));
    assert!(requests.is_empty());
    assert_eq!(notices, vec![BlindsState::Opening]);
    assert_eq!(room.state(), BlindsState::Opening);
    let turn = room.close();
    let (requests, _, result) = run(&mut room, turn, MotorStatus::Holding);
    assert_eq!(result, Err(DriverError::MissingMotorConfig));
    assert!(requests.is_empty());
    assert_eq!(room.state(), BlindsState::Closing);
}

#[test]
fn bedroom_toggle_follows_the_state() {
    for (from, to) in [
        (BlindsState::Closed, BlindsState::Open),
        (BlindsState::Closing, BlindsState::Open),
        (BlindsState::Open, BlindsState::Closed),
        (BlindsState::Opening, BlindsState::Closed),
        (BlindsState::Other, BlindsState::Closed),
    ] {
        let mut room = bedroom(Some(0), from);
        let turn = room.toggle();
        let (_, _, result) = run(&mut room, turn, MotorStatus::Holding);
        assert_eq!(result, Ok(()));
        assert_eq!(room.state(), to);
    }
}

#[test]
fn bedroom_has_no_partial_position() {
    let mut room = bedroom(Some(0), BlindsState::Closed);
    let turn = room.partial_open(Fraction { millionths: 500_000 });
    assert_eq!(
        turn,
        Turn {
            notify: None,
            progress: Progress::Finished(Err(DriverError::PartialPositionUnsupported))
        }
    );
    assert_eq!(room.state(), BlindsState::Closed);
}

#[test]
fn bedroom_fault_leaves_the_room_in_its_transitional_state() {
    let mut room = bedroom(Some(2_000), BlindsState::Closed);
    let turn = room.open();
    let (requests, _, result) = run(&mut room, turn, MotorStatus::Stuck);
    assert_eq!(result, Err(DriverError::BadMotorStatus(MotorStatus::Stuck)));
    assert_eq!(room.state(), BlindsState::Opening);
    assert!(!requests.contains(&Request::Motor(MotorCommand::Release { motor: 1 })));
}

#[test]
fn bedroom_reset_check_asks_its_one_motor() {
    let room = bedroom(None, BlindsState::Other);
    for (color, expected) in [(LedColor::Off, false), (LedColor::Magenta, true)] {
        match room.were_motors_reset() {
            Progress::Pending(check, request) => {
                assert_eq!(request, Request::Motor(MotorCommand::QueryIndicator { motor: 1 }));
                assert_eq!(
                    check.resume(Response::Indicator(color)),
                    Progress::Finished(Ok(expected))
                );
            }
            Progress::Finished(_) => panic!("the check asks the motor"),
        }
    }
}
