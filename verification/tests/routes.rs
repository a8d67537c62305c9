use blinds::config::{LivingRoomBlindsConfig, MqttConfig};
use blinds::driver::living_room_blinds::LivingRoomBlinds;
use blinds::driver::protocol::Progress;
use blinds::driver::{Blinds, BlindsState};
use blinds::error::DriverError;
use blinds::decimal::parse_fraction;
use blinds::fraction::{partial_position, Fraction};
use blinds::routes::{
    command_of, ends_with, execute, route_of, same_bytes, starts_with, switch_action, Action,
    BlindsHandler, Command, Route, SwitchHandler, SwitchPayload,
};

fn fraction(millionths: i64) -> Option<Fraction> {
    Some(Fraction { millionths })
}

#[test]
fn decimal_fractions_are_read_to_six_places() {
    assert_eq!(parse_fraction(b"0"), fraction(0));
    assert_eq!(parse_fraction(b"1"), fraction(1_000_000));
    assert_eq!(parse_fraction(b"0.0"), fraction(0));
    assert_eq!(parse_fraction(b"1.0"), fraction(1_000_000));
    assert_eq!(parse_fraction(b"0.25"), fraction(250_000));
    assert_eq!(parse_fraction(b"0.5"), fraction(500_000));
    assert_eq!(parse_fraction(b".5"), fraction(500_000));
    assert_eq!(parse_fraction(b"1."), fraction(1_000_000));
    assert_eq!(parse_fraction(b"+0.75"), fraction(750_000));
    assert_eq!(parse_fraction(b"-0.5"), fraction(-500_000));
    assert_eq!(parse_fraction(b"-0"), fraction(0));
    assert_eq!(parse_fraction(b"007.000001"), fraction(7_000_001));
    assert_eq!(parse_fraction(b"0.123456"), fraction(123_456));
    assert_eq!(parse_fraction(b"0.1234567"), fraction(123_456));
    assert_eq!(parse_fraction(b"0.9999999999"), fraction(999_999));
    assert_eq!(parse_fraction(b"12.5"), fraction(12_500_000));
}

#[test]
fn text_that_writes_no_decimal_fraction_is_refused() {
    for text in [
        &b""[..],
        b"+",
        b"-",
        b".",
        b"-.",
        b"abc",
        b"0.5 ",
        b" 0.5",
        b"0.5\n",
        b"0,5",
        b"1.2.3",
        b"1e",
        b"1e+",
        b"1e-",
        b"e5",
        b".e5",
        b"1e5.",
        b"1e5e5",
        b"1e 5",
        b"1f5",
        b"--1",
        b"+-1",
        b"0x10",
        b"NaN",
        b"inf",
        b"\xff",
    ] {
        assert_eq!(parse_fraction(text), None, "{:?}", text);
    }
}

#[test]
fn decimal_fractions_may_carry_an_exponent() {
    assert_eq!(parse_fraction(b"1e0"), fraction(1_000_000));
    assert_eq!(parse_fraction(b"1e-3"), fraction(1_000));
    assert_eq!(parse_fraction(b"2.5e-1"), fraction(250_000));
    assert_eq!(parse_fraction(b"25E-2"), fraction(250_000));
    assert_eq!(parse_fraction(b"+.25e+1"), fraction(2_500_000));
    assert_eq!(parse_fraction(b"-2.5e-1"), fraction(-250_000));
    assert_eq!(parse_fraction(b"1e-6"), fraction(1));
    assert_eq!(parse_fraction(b"1e-7"), fraction(0));
    assert_eq!(parse_fraction(b"-1e-7"), fraction(0));
    assert_eq!(parse_fraction(b"9.999999e-1"), fraction(999_999));
    assert_eq!(parse_fraction(b"9.9999999e-1"), fraction(999_999));
    assert_eq!(parse_fraction(b"0.0000005e7"), fraction(5_000_000));
    assert_eq!(parse_fraction(b"123456789e-3"), fraction(123_456_789_000));
    assert_eq!(parse_fraction(b"1e2"), fraction(100_000_000));
    assert_eq!(parse_fraction(b"1e+2"), fraction(100_000_000));
    assert_eq!(parse_fraction(b"5.960464477539062e-7"), fraction(0));
    assert_eq!(parse_fraction(b"1e12"), fraction(1_000_000_000_000_000_000));
    assert_eq!(parse_fraction(b"9e12"), fraction(9_000_000_000_000_000_000));
    assert_eq!(parse_fraction(b"1e13"), fraction(i64::MAX));
    assert_eq!(parse_fraction(b"-1e13"), fraction(-i64::MAX));
    assert_eq!(parse_fraction(b"1e99999999999999999999999999999999999999999"), fraction(i64::MAX));
    assert_eq!(parse_fraction(b"0e99999999999999999999999999999999999999999"), fraction(0));
    assert_eq!(parse_fraction(b"0.000e99999999999999999999999999999999999999"), fraction(0));
    assert_eq!(parse_fraction(b"1e-99999999999999999999999999999999999999999"), fraction(0));
    assert_eq!(parse_fraction(b"123456789012345678901234567890e-30"), fraction(123_456));
    assert_eq!(parse_fraction(b"0.00000000000000000000000000001e29"), fraction(1_000_000));
    assert_eq!(parse_fraction(b"1000000000000000000000000000000e-30"), fraction(1_000_000));
}

#[test]
fn fractions_too_large_to_hold_are_held_as_the_largest() {
    assert_eq!(parse_fraction(b"9223372036854.775807"), fraction(i64::MAX));
    assert_eq!(parse_fraction(b"9223372036854.775806"), fraction(i64::MAX - 1));
    assert_eq!(parse_fraction(b"9223372036854.775808"), fraction(i64::MAX));
    assert_eq!(parse_fraction(b"9999999999999"), fraction(i64::MAX));
    assert_eq!(parse_fraction(b"10000000000000"), fraction(i64::MAX));
    assert_eq!(parse_fraction(b"99999999999999999999999999999999999999.5"), fraction(i64::MAX));
    assert_eq!(parse_fraction(b"-99999999999999999999999999999999999999"), fraction(-i64::MAX));
    assert_eq!(parse_fraction(b"9223372036853.999999"), fraction(9_223_372_036_853_999_999));
}

#[test]
fn partial_positions_lie_between_closed_and_open() {
    let at = |millionths| partial_position(100, -100, Fraction { millionths });
    assert_eq!(at(0), Ok(100));
    assert_eq!(at(1_000_000), Ok(-100));
    assert_eq!(at(500_000), Ok(0));
    assert_eq!(at(750_000), Ok(-50));
    assert_eq!(at(-1), Err(DriverError::PartialPositionOutOfRange));
    assert_eq!(at(1_000_001), Err(DriverError::PartialPositionOutOfRange));
    assert!(Fraction::from_millionths(0).is_in_unit_interval());
    assert!(Fraction::from_millionths(1_000_000).is_in_unit_interval());
    assert!(!Fraction::from_millionths(-1).is_in_unit_interval());
    assert!(!Fraction::from_millionths(1_000_001).is_in_unit_interval());
}

#[test]
fn bytes_are_compared_as_they_stand() {
    assert!(ends_with(b"living_room/blinds/open", b"open"));
    assert!(ends_with(b"open", b"open"));
    assert!(ends_with(b"open", b""));
    assert!(!ends_with(b"pen", b"open"));
    assert!(!ends_with(b"living_room/blinds/Open", b"open"));
    assert!(starts_with(b"living_room/blinds/open", b"living_room"));
    assert!(starts_with(b"abc", b""));
    assert!(!starts_with(b"ab", b"abc"));
    assert!(!starts_with(b"xbc", b"abc"));
    assert!(same_bytes(b"single", b"single"));
    assert!(same_bytes(b"", b""));
    assert!(!same_bytes(b"single", b"singles"));
    assert!(!same_bytes(b"single", b"singlE"));
}

#[test]
fn topics_are_routed_by_their_ending() {
    assert_eq!(route_of("living_room/blinds/open"), Some(Route::Open));
    assert_eq!(route_of("living_room/blinds/close"), Some(Route::Close));
    assert_eq!(route_of("living_room/blinds/toggle"), Some(Route::Toggle));
    assert_eq!(route_of("living_room/blinds/partial"), Some(Route::Partial));
    assert_eq!(route_of("living_room/blinds/command"), Some(Route::Command));
    assert_eq!(route_of("open"), Some(Route::Open));
    assert_eq!(route_of("living_room/blinds/reopen"), Some(Route::Open));
    assert_eq!(route_of("living_room/blinds/state"), None);
    assert_eq!(route_of("living_room/blinds/open/"), None);
    assert_eq!(route_of("living_room/blinds/OPEN"), None);
    assert_eq!(route_of(""), None);
    assert_eq!(route_of("schlie\u{df}en"), None);
}

#[test]
fn blinds_handler_reads_commands_off_topics() {
    let handler = BlindsHandler::new();
    assert_eq!(handler.call("room/open", b""), Ok(Some(Command::Open)));
    assert_eq!(handler.call("room/open", b"anything"), Ok(Some(Command::Open)));
    assert_eq!(handler.call("room/close", b""), Ok(Some(Command::Close)));
    assert_eq!(handler.call("room/toggle", b""), Ok(Some(Command::Toggle)));
    assert_eq!(
        handler.call("room/partial", b"0.25"),
        Ok(Some(Command::Partial { open: Fraction { millionths: 250_000 } }))
    );
    assert_eq!(
        handler.call("room/partial", b"1.5"),
        Ok(Some(Command::Partial { open: Fraction { millionths: 1_500_000 } }))
    );
    assert_eq!(handler.call("room/partial", b"half"), Err(DriverError::MalformedPayload));
    assert_eq!(handler.call("room/partial", b""), Err(DriverError::MalformedPayload));
    assert_eq!(handler.call("room/state", b"{}"), Ok(None));
    assert_eq!(handler.call("room/elsewhere", b"0.5"), Ok(None));
}

#[test]
fn blinds_handler_reads_action_objects() {
    let handler = BlindsHandler::new();
    let call = |payload: &str| handler.call("room/command", payload.as_bytes());
    assert_eq!(call(r#"{"action":"open"}"#), Ok(Some(Command::Open)));
    assert_eq!(call(r#"{"action":"close"}"#), Ok(Some(Command::Close)));
    assert_eq!(call(r#"{"action":"toggle"}"#), Ok(Some(Command::Toggle)));
    assert_eq!(
        call(r#"{"action":"partial","open":0.5}"#),
        Ok(Some(Command::Partial { open: Fraction { millionths: 500_000 } }))
    );
    assert_eq!(
        call(r#" { "open" : 0.125 , "action" : "partial" , "note" : [1, 2] } "#),
        Ok(Some(Command::Partial { open: Fraction { millionths: 125_000 } }))
    );
    assert_eq!(
        call(r#"{"action":"partial","open":1}"#),
        Ok(Some(Command::Partial { open: Fraction { millionths: 1_000_000 } }))
    );
    assert_eq!(
        call(r#"{"action":"partial","open":0}"#),
        Ok(Some(Command::Partial { open: Fraction { millionths: 0 } }))
    );
    assert_eq!(
        call(r#"{"action":"partial","open":-0.5}"#),
        Ok(Some(Command::Partial { open: Fraction { millionths: -500_000 } }))
    );
    assert_eq!(
        call(r#"{"action":"partial","open":0.000002}"#),
        Ok(Some(Command::Partial { open: Fraction { millionths: 2 } }))
    );
    assert_eq!(
        call(r#"{"action":"partial","open":25e-2}"#),
        Ok(Some(Command::Partial { open: Fraction { millionths: 250_000 } }))
    );
    assert_eq!(
        call(r#"{"action":"partial","open":1e300}"#),
        Ok(Some(Command::Partial { open: Fraction { millionths: i64::MAX } }))
    );
    assert_eq!(
        call(r#"{"action":"partial","open":"0.75"}"#),
        Ok(Some(Command::Partial { open: Fraction { millionths: 750_000 } }))
    );
    for malformed in [
        r#"{"action":"partial"}"#,
        r#"{"action":"partial","open":null}"#,
        r#"{"action":"partial","open":"wide"}"#,
        r#"{"action":"partial","open":[0.5]}"#,
        r#"{"action":"Open"}"#,
        r#"{"action":"stop"}"#,
        r#"{"action":1}"#,
        r#"{"open":0.5}"#,
        r#"{}"#,
        r#"["open"]"#,
        r#""open""#,
        r#"{"action":"open""#,
        r#"open"#,
        r#""#,
    ] {
        assert_eq!(call(malformed), Err(DriverError::MalformedPayload), "{}", malformed);
    }
}

#[test]
fn action_objects_are_read_from_their_members() {
    let some = |text: &str| Some(text.as_bytes().to_vec());
    assert_eq!(command_of(&some("open"), &None), Ok(Command::Open));
    assert_eq!(command_of(&some("open"), &some("0.5")), Ok(Command::Open));
    assert_eq!(command_of(&some("close"), &None), Ok(Command::Close));
    assert_eq!(command_of(&some("toggle"), &None), Ok(Command::Toggle));
    assert_eq!(
        command_of(&some("partial"), &some("0.5")),
        Ok(Command::Partial { open: Fraction { millionths: 500_000 } })
    );
    assert_eq!(command_of(&some("partial"), &None), Err(DriverError::MalformedPayload));
    assert_eq!(
        command_of(&some("partial"), &some("5e-1")),
        Ok(Command::Partial { open: Fraction { millionths: 500_000 } })
    );
    assert_eq!(command_of(&some("partial"), &some("e-1")), Err(DriverError::MalformedPayload));
    assert_eq!(command_of(&some(""), &None), Err(DriverError::MalformedPayload));
    assert_eq!(command_of(&None, &some("0.5")), Err(DriverError::MalformedPayload));
}

#[test]
fn switch_clicks_are_read_from_their_action() {
    let some = |text: &str| Some(text.as_bytes().to_vec());
    assert_eq!(switch_action(&some("single")), Ok(Action::Single));
    assert_eq!(switch_action(&some("double")), Ok(Action::Double));
    assert_eq!(switch_action(&some("long")), Ok(Action::Long));
    assert_eq!(switch_action(&some("Single")), Err(DriverError::MalformedPayload));
    assert_eq!(switch_action(&some("triple")), Err(DriverError::MalformedPayload));
    assert_eq!(switch_action(&None), Err(DriverError::MalformedPayload));
    assert_eq!(Action::Single.command(), Some(Command::Close));
    assert_eq!(Action::Long.command(), Some(Command::Open));
    assert_eq!(Action::Double.command(), None);
}

#[test]
fn switch_single_click_closes_long_click_opens_double_click_does_nothing() {
    let handler = SwitchHandler::new();
    assert_eq!(handler.call(br#"{"action":"single"}"#), Ok(Some(Command::Close)));
    assert_eq!(handler.call(br#"{"action":"long"}"#), Ok(Some(Command::Open)));
    assert_eq!(handler.call(br#"{"action":"double"}"#), Ok(None));
}

#[test]
fn switch_reports_carry_more_than_the_action() {
    let report =
        br#"{"action":"single","battery":97.5,"linkquality":120,"voltage":3005,"extra":{"a":1}}"#;
    assert_eq!(SwitchPayload::decode(report), Ok(SwitchPayload { action: Action::Single }));
    assert_eq!(SwitchHandler::new().call(report), Ok(Some(Command::Close)));
}

#[test]
fn malformed_switch_reports_are_refused() {
    let handler = SwitchHandler::new();
    for malformed in [
        &br#"{"action":"triple"}"#[..],
        br#"{"action":""}"#,
        br#"{"action":null}"#,
        br#"{"action":7}"#,
        br#"{"battery":97.5}"#,
        br#"{"action":"single""#,
        br#"["single"]"#,
        br#"single"#,
        br#""#,
        b"\xff\xfe",
    ] {
        assert_eq!(handler.call(malformed), Err(DriverError::MalformedPayload), "{:?}", malformed);
        assert_eq!(SwitchPayload::decode(malformed), Err(DriverError::MalformedPayload));
    }
}

fn calibrated(state: BlindsState) -> LivingRoomBlinds {
    LivingRoomBlinds {
        config: LivingRoomBlindsConfig {
            serial_port: String::from("/dev/ttyUSB0"),
            slide_motor_id: 1,
            flip_motor_id: 2,
            flip_motor_left: Some(100),
            flip_motor_right: Some(-300),
            mqtt: MqttConfig::default(),
        },
        state,
    }
}

#[test]
fn commands_begin_the_operations_they_name() {
    let mut room = calibrated(BlindsState::Closed);
    let mut same = calibrated(BlindsState::Closed);
    assert_eq!(execute(&mut room, Command::Open), same.open());
    assert_eq!(room, same);
    assert_eq!(room.state(), BlindsState::Opening);

    let mut room = calibrated(BlindsState::Open);
    let mut same = calibrated(BlindsState::Open);
    assert_eq!(execute(&mut room, Command::Close), same.close());
    assert_eq!(room.state(), BlindsState::Closing);

    let mut room = calibrated(BlindsState::Other);
    let mut same = calibrated(BlindsState::Other);
    assert_eq!(execute(&mut room, Command::Toggle), same.toggle());
    assert_eq!(room.state(), BlindsState::Closing);

    let open = Fraction { millionths: 300_000 };
    let mut room = calibrated(BlindsState::Closed);
    let mut same = calibrated(BlindsState::Closed);
    assert_eq!(execute(&mut room, Command::Partial { open }), same.partial_open(open));
    assert_eq!(room.state(), BlindsState::Opening);

    let mut room = calibrated(BlindsState::Closed);
    let turn = execute(&mut room, Command::Partial { open: Fraction { millionths: 1_000_001 } });
    assert_eq!(turn.progress, Progress::Finished(Err(DriverError::PartialPositionOutOfRange)));
}
