use blinds::config::{
    default_mqtt_port, midpoint_of, BedroomBlindsConfig, BlindsConfig, LivingRoomBlindsConfig,
    MqttConfig, DEFAULT_MQTT_PORT,
};
use blinds::driver::motor::{MotorCommand, BROADCAST_ID};
use blinds::driver::{BlindsState, Room};
use blinds::error::DriverError;
use blinds::fraction::Fraction;
use blinds::mqtt_server::{
    start_mqtt_service, CommandRouter, MqttAction, MqttUpdate, Publication, Routed, StatePublisher,
};
use blinds::routes::Command;

fn mqtt(switch_topic: Option<&str>) -> MqttConfig {
    MqttConfig {
        base_route: String::from("living_room/blinds"),
        broker_host: String::from("mqtt"),
        broker_port: 1883,
        client_id: String::from("living_room_blinds"),
        switch_topic: switch_topic.map(String::from),
    }
}

#[test]
fn defaults_describe_an_uncalibrated_living_room() {
    assert_eq!(default_mqtt_port(), 1883);
    assert_eq!(DEFAULT_MQTT_PORT, 1883);
    assert_eq!(MqttConfig::default(), mqtt(None));
    assert_eq!(
        LivingRoomBlindsConfig::default(),
        LivingRoomBlindsConfig {
            serial_port: String::from("/dev/ttyUSB0"),
            slide_motor_id: 1,
            flip_motor_id: 2,
            flip_motor_left: None,
            flip_motor_right: None,
            mqtt: mqtt(None),
        }
    );
    assert_eq!(
        BedroomBlindsConfig::default(),
        BedroomBlindsConfig {
            serial_port: String::from("/dev/ttyUSB0"),
            motor_id: 1,
            top_position: None,
            mqtt: mqtt(None),
        }
    );
    assert_eq!(
        BlindsConfig::default(),
        BlindsConfig {
            living_room_blinds: Some(LivingRoomBlindsConfig::default()),
            bedroom_blinds: None,
        }
    );
}

#[test]
fn copies_of_configurations_are_equal() {
    let config = LivingRoomBlindsConfig {
        flip_motor_left: Some(3),
        mqtt: mqtt(Some("zigbee2mqtt/switch/one")),
        ..LivingRoomBlindsConfig::default()
    };
    assert_eq!(config.clone(), config);
    let config = BedroomBlindsConfig { top_position: Some(-7), ..BedroomBlindsConfig::default() };
    assert_eq!(config.clone(), config);
}

#[test]
fn midpoints_round_away_from_zero() {
    assert_eq!(midpoint_of(100, -300), -100);
    assert_eq!(midpoint_of(-300, 100), -100);
    assert_eq!(midpoint_of(0, 0), 0);
    assert_eq!(midpoint_of(0, 1), 1);
    assert_eq!(midpoint_of(0, -1), -1);
    assert_eq!(midpoint_of(3, 4), 4);
    assert_eq!(midpoint_of(-3, -4), -4);
    assert_eq!(midpoint_of(-1, 2), 1);
    assert_eq!(midpoint_of(i32::MAX, i32::MIN), -1);
    assert_eq!(midpoint_of(i32::MAX, i32::MAX - 1), i32::MAX);
}

#[test]
fn a_configuration_gives_the_controller_of_its_one_room() {
    let living_room = LivingRoomBlindsConfig {
        mqtt: mqtt(Some("zigbee2mqtt/switch/one")),
        ..LivingRoomBlindsConfig::default()
    };
    let config =
        BlindsConfig { living_room_blinds: Some(living_room.clone()), bedroom_blinds: None };
    let startup = config.driver_from_config().expect("one room is configured");
    assert_eq!(startup.first, MotorCommand::Release { motor: BROADCAST_ID });
    assert_eq!(startup.mqtt, living_room.mqtt);
    match startup.room {
        Room::LivingRoom(room) => {
            assert_eq!(room.config, living_room);
            assert_eq!(room.state(), BlindsState::Other);
        }
        Room::Bedroom(_) => panic!("the living room was configured"),
    }

    let bedroom = BedroomBlindsConfig { motor_id: 9, ..BedroomBlindsConfig::default() };
    let config = BlindsConfig { living_room_blinds: None, bedroom_blinds: Some(bedroom.clone()) };
    let startup = config.driver_from_config().expect("one room is configured");
    assert_eq!(startup.mqtt, bedroom.mqtt);
    match startup.room {
        Room::Bedroom(room) => {
            assert_eq!(room.config, bedroom);
            assert_eq!(room.state(), BlindsState::Other);
        }
        Room::LivingRoom(_) => panic!("the bedroom was configured"),
    }
}

#[test]
fn a_configuration_of_no_room_or_of_two_is_refused() {
    let none = BlindsConfig { living_room_blinds: None, bedroom_blinds: None };
    assert_eq!(none.driver_from_config().err(), Some(DriverError::MissingRoomConfiguration));
    let both = BlindsConfig {
        living_room_blinds: Some(LivingRoomBlindsConfig::default()),
        bedroom_blinds: Some(BedroomBlindsConfig::default()),
    };
    assert_eq!(both.driver_from_config().err(), Some(DriverError::BothRoomConfigsPresent));
}

#[test]
fn states_are_published_as_json() {
    let publisher = StatePublisher::new(String::from("living_room/blinds/state"));
    for (state, payload) in [
        (BlindsState::Open, &br#"{"state":"open"}"#[..]),
        (BlindsState::Closed, br#"{"state":"closed"}"#),
        (BlindsState::Opening, br#"{"state":"opening"}"#),
        (BlindsState::Closing, br#"{"state":"closing"}"#),
        (BlindsState::Partial, br#"{"state":"partial"}"#),
        (BlindsState::Other, br#"{"state":"other"}"#),
    ] {
        assert_eq!(
            publisher.update_state(state),
            Publication {
                topic: String::from("living_room/blinds/state"),
                payload: payload.to_vec()
            }
        );
    }
    assert_eq!(BlindsState::Partial.name(), "partial");
}

#[test]
fn service_listens_below_the_base_route_and_to_the_switch() {
    let service = start_mqtt_service(mqtt(Some("zigbee2mqtt/switch/one")));
    assert_eq!(service.client_id, "living_room_blinds");
    assert_eq!(service.broker_host, "mqtt");
    assert_eq!(service.broker_port, 1883);
    assert_eq!(service.keep_alive_secs, 5);
    assert_eq!(service.request_capacity, 10);
    assert_eq!(service.publisher.update_topic, "living_room/blinds/state");
    assert_eq!(
        service.router.topics_for_subscription(),
        vec![String::from("living_room/blinds/#"), String::from("zigbee2mqtt/switch/one")]
    );
    let service = start_mqtt_service(mqtt(None));
    assert_eq!(service.router.topics_for_subscription(), vec![String::from("living_room/blinds/#")]);
}

#[test]
fn subscriptions_are_made_anew_after_every_reconnection() {
    let service = start_mqtt_service(mqtt(Some("zigbee2mqtt/switch/one")));
    let expected = MqttAction::Subscribe(vec![
        String::from("living_room/blinds/#"),
        String::from("zigbee2mqtt/switch/one"),
    ]);
    assert_eq!(service.on_update(&MqttUpdate::Reconnection), expected);
    assert_eq!(service.on_update(&MqttUpdate::Reconnection), expected);
}

fn message(topic: &str, payload: &str) -> MqttUpdate {
    MqttUpdate::Message { topic: String::from(topic), payload: payload.as_bytes().to_vec() }
}

#[test]
fn messages_go_to_the_handlers_of_their_topic() {
    let service = start_mqtt_service(mqtt(Some("zigbee2mqtt/switch/one")));
    let on = |topic: &str, payload: &str| match service.on_update(&message(topic, payload)) {
        MqttAction::Dispatch(routed) => routed,
        other => panic!("a message is dispatched, not {:?}", other),
    };
    let blinds = |handled| Routed { blinds: Some(handled), switch: None };
    let switch = |handled| Routed { blinds: None, switch: Some(handled) };
    let nobody = Routed { blinds: None, switch: None };

    assert_eq!(on("living_room/blinds/open", ""), blinds(Ok(Some(Command::Open))));
    assert_eq!(on("living_room/blinds/close", ""), blinds(Ok(Some(Command::Close))));
    assert_eq!(on("living_room/blinds/toggle", ""), blinds(Ok(Some(Command::Toggle))));
    assert_eq!(
        on("living_room/blinds/partial", "0.4"),
        blinds(Ok(Some(Command::Partial { open: Fraction { millionths: 400_000 } })))
    );
    assert_eq!(
        on("living_room/blinds/command", r#"{"action":"toggle"}"#),
        blinds(Ok(Some(Command::Toggle)))
    );
    assert_eq!(
        on("living_room/blinds/partial", "wide"),
        blinds(Err(DriverError::MalformedPayload))
    );
    assert_eq!(on("living_room/blinds/state", r#"{"state":"open"}"#), blinds(Ok(None)));
    assert_eq!(on("living_room/blinds", ""), blinds(Ok(None)));
    assert_eq!(on("living_room/blinds/deeper/open", ""), blinds(Ok(Some(Command::Open))));

    assert_eq!(
        on("zigbee2mqtt/switch/one", r#"{"action":"single"}"#),
        switch(Ok(Some(Command::Close)))
    );
    assert_eq!(
        on("zigbee2mqtt/switch/one", r#"{"action":"long"}"#),
        switch(Ok(Some(Command::Open)))
    );
    assert_eq!(on("zigbee2mqtt/switch/one", r#"{"action":"double"}"#), switch(Ok(None)));
    assert_eq!(on("zigbee2mqtt/switch/one", "click"), switch(Err(DriverError::MalformedPayload)));

    assert_eq!(on("living_room/blindsopen", ""), nobody);
    assert_eq!(on("living_room/blind", ""), nobody);
    assert_eq!(on("bedroom/blinds/open", ""), nobody);
    assert_eq!(on("zigbee2mqtt/switch/one/open", ""), nobody);
    assert_eq!(on("zigbee2mqtt/switch/two", r#"{"action":"single"}"#), nobody);
    assert_eq!(on("", ""), nobody);
    assert!(!nobody.handled());
    assert!(on("living_room/blinds/state", "").handled());
}

#[test]
fn a_switch_below_the_base_route_reaches_both_handlers() {
    let router = CommandRouter::new(
        String::from("living_room/blinds"),
        Some(String::from("living_room/blinds/switch/open")),
    );
    assert_eq!(
        router.handle_message("living_room/blinds/switch/open", br#"{"action":"single"}"#),
        Routed { blinds: Some(Ok(Some(Command::Open))), switch: Some(Ok(Some(Command::Close))) }
    );
}

#[test]
fn a_room_without_a_switch_has_no_switch_handler() {
    let service = start_mqtt_service(mqtt(None));
    assert_eq!(
        service.on_update(&message("zigbee2mqtt/switch/one", r#"{"action":"single"}"#)),
        MqttAction::Dispatch(Routed { blinds: None, switch: None })
    );
}
