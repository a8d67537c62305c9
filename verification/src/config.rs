//! What is known about a room: where its motors are and how far they travel.
//!
//! Positions are tenths of a degree. The travel limits start out unset and
//! are learned by calibration; until then the room can be neither opened nor
//! closed.

use crate::driver::bedroom_blinds::BedroomBlinds;
use crate::driver::living_room_blinds::LivingRoomBlinds;
use crate::driver::motor::{MotorCommand, BROADCAST_ID};
use crate::driver::Room;
use crate::error::DriverError;
use vstd::prelude::*;
use vstd::string::*;

verus! {

/// The broker's TCP port when the configuration names none.
pub const DEFAULT_MQTT_PORT: u16 = 1883;

pub fn default_mqtt_port() -> (port: u16)
    ensures
        port == DEFAULT_MQTT_PORT,
{
    DEFAULT_MQTT_PORT
}

/// The point halfway between two positions. Where that is no whole tenth of
/// a degree it is the neighbour further from zero, which is how the motor
/// itself rounds.
pub open spec fn midpoint(a: int, b: int) -> int {
    if a + b >= 0 {
        (a + b + 1) / 2
    } else {
        -((1 - (a + b)) / 2)
    }
}

/// Computes [`midpoint`].
pub fn midpoint_of(a: i32, b: i32) -> (middle: i32)
    ensures
        middle == midpoint(a as int, b as int),
        a <= b ==> a <= middle <= b,
        b <= a ==> b <= middle <= a,
{
    let sum: i64 = a as i64 + b as i64;
    if sum >= 0 {
        ((sum + 1) / 2) as i32
    } else {
        (-((1 - sum) / 2)) as i32
    }
}

/// How the message bus is reached and which topics belong to the room.
#[derive(Debug, PartialEq, Eq)]
pub struct MqttConfig {
    /// Topic under which the room takes commands and reports its state.
    pub base_route: String,
    pub broker_host: String,
    pub broker_port: u16,
    pub client_id: String,
    /// Topic of a wall switch that drives the room, if there is one.
    pub switch_topic: Option<String>,
}

impl Clone for MqttConfig {
    fn clone(&self) -> (copy: Self)
        ensures
            copy == *self,
    {
        MqttConfig {
            base_route: self.base_route.clone(),
            broker_host: self.broker_host.clone(),
            broker_port: self.broker_port,
            client_id: self.client_id.clone(),
            switch_topic: match &self.switch_topic {
                Some(topic) => Some(topic.clone()),
                None => None,
            },
        }
    }
}

impl MqttConfig {
    /// Whether this is how a room reaches the message bus if nobody says
    /// otherwise.
    pub open spec fn is_default(self) -> bool {
        &&& self.base_route@ == "living_room/blinds"@
        &&& self.broker_host@ == "mqtt"@
        &&& self.broker_port == DEFAULT_MQTT_PORT
        &&& self.client_id@ == "living_room_blinds"@
        &&& self.switch_topic is None
    }
}

impl Default for MqttConfig {
    fn default() -> (config: Self)
        ensures
            config.is_default(),
    {
        MqttConfig {
            base_route: "living_room/blinds".to_owned(),
            broker_host: "mqtt".to_owned(),
            broker_port: DEFAULT_MQTT_PORT,
            client_id: "living_room_blinds".to_owned(),
            switch_topic: None,
        }
    }
}

/// A room with a single motor that lifts and lowers the blind.
#[derive(Debug, PartialEq, Eq)]
pub struct BedroomBlindsConfig {
    pub serial_port: String,
    pub motor_id: u8,
    /// The top limit of the blind's travel, learned by calibration.
    pub top_position: Option<i32>,
    pub mqtt: MqttConfig,
}

impl Clone for BedroomBlindsConfig {
    fn clone(&self) -> (copy: Self)
        ensures
            copy == *self,
    {
        BedroomBlindsConfig {
            serial_port: self.serial_port.clone(),
            motor_id: self.motor_id,
            top_position: self.top_position,
            mqtt: self.mqtt.clone(),
        }
    }
}

impl Default for BedroomBlindsConfig {
    fn default() -> (config: Self)
        ensures
            config.is_default(),
    {
        BedroomBlindsConfig {
            serial_port: "/dev/ttyUSB0".to_owned(),
            motor_id: 1,
            top_position: None,
            mqtt: MqttConfig::default(),
        }
    }
}

impl BedroomBlindsConfig {
    /// Whether this is the room as it is before anybody has configured it:
    /// motor 1 on the first serial port, not calibrated.
    pub open spec fn is_default(self) -> bool {
        &&& self.serial_port@ == "/dev/ttyUSB0"@
        &&& self.motor_id == 1
        &&& self.top_position is None
        &&& self.mqtt.is_default()
    }

    /// Whether the travel limit has yet to be learned.
    pub open spec fn needs_calibration(&self) -> bool {
        self.top_position is None
    }
}

/// A room with two motors: one slides the blinds along the window, the other
/// flips their louvers.
#[derive(Debug, PartialEq, Eq)]
pub struct LivingRoomBlindsConfig {
    pub serial_port: String,
    pub slide_motor_id: u8,
    pub flip_motor_id: u8,
    /// One end of the flip motor's travel, learned by calibration. This is
    /// where the louvers are closed.
    pub flip_motor_left: Option<i32>,
    /// The other end of the flip motor's travel, learned by calibration.
    pub flip_motor_right: Option<i32>,
    pub mqtt: MqttConfig,
}

impl Clone for LivingRoomBlindsConfig {
    fn clone(&self) -> (copy: Self)
        ensures
            copy == *self,
    {
        LivingRoomBlindsConfig {
            serial_port: self.serial_port.clone(),
            slide_motor_id: self.slide_motor_id,
            flip_motor_id: self.flip_motor_id,
            flip_motor_left: self.flip_motor_left,
            flip_motor_right: self.flip_motor_right,
            mqtt: self.mqtt.clone(),
        }
    }
}

impl Default for LivingRoomBlindsConfig {
    fn default() -> (config: Self)
        ensures
            config.is_default(),
    {
        LivingRoomBlindsConfig {
            serial_port: "/dev/ttyUSB0".to_owned(),
            slide_motor_id: 1,
            flip_motor_id: 2,
            flip_motor_left: None,
            flip_motor_right: None,
            mqtt: MqttConfig::default(),
        }
    }
}

impl LivingRoomBlindsConfig {
    /// Whether this is the room as it is before anybody has configured it:
    /// the slide motor is motor 1 and the flip motor is motor 2 on the first
    /// serial port, not calibrated.
    pub open spec fn is_default(self) -> bool {
        &&& self.serial_port@ == "/dev/ttyUSB0"@
        &&& self.slide_motor_id == 1
        &&& self.flip_motor_id == 2
        &&& self.flip_motor_left is None
        &&& self.flip_motor_right is None
        &&& self.mqtt.is_default()
    }

    /// Whether a travel limit has yet to be learned.
    pub open spec fn needs_calibration(&self) -> bool {
        self.flip_motor_left is None || self.flip_motor_right is None
    }

    /// The flip motor's centre, if both ends of its travel are known.
    pub open spec fn spec_flip_motor_center(&self) -> Option<i32> {
        if self.needs_calibration() {
            None
        } else {
            Some(
                midpoint(
                    self.flip_motor_left->Some_0 as int,
                    self.flip_motor_right->Some_0 as int,
                ) as i32,
            )
        }
    }

    /// The position at which the louvers stand open: halfway between the
    /// two ends of the flip motor's travel. `None` until both are known.
    pub fn flip_motor_center(&self) -> (center: Option<i32>)
        ensures
            center == self.spec_flip_motor_center(),
            center is None <==> self.needs_calibration(),
            center matches Some(c) ==> c == midpoint(
                self.flip_motor_left->Some_0 as int,
                self.flip_motor_right->Some_0 as int,
            ),
    {
        match (self.flip_motor_left, self.flip_motor_right) {
            (Some(left), Some(right)) => Some(midpoint_of(left, right)),
            _ => None,
        }
    }
}

/// The configuration as it is stored: one room of one of the two kinds.
#[derive(Debug, PartialEq, Eq)]
pub struct BlindsConfig {
    pub living_room_blinds: Option<LivingRoomBlindsConfig>,
    pub bedroom_blinds: Option<BedroomBlindsConfig>,
}

impl Default for BlindsConfig {
    /// The configuration of a fresh installation: a living room as it is
    /// before anybody has configured it, and no bedroom.
    fn default() -> (config: Self)
        ensures
            config.bedroom_blinds is None,
            config.living_room_blinds is Some,
            config.living_room_blinds->Some_0.is_default(),
    {
        BlindsConfig {
            living_room_blinds: Some(LivingRoomBlindsConfig::default()),
            bedroom_blinds: None,
        }
    }
}

/// What a configuration gives rise to: the controller of its room, in state
/// `Other`, how the room reaches the message bus, and the command with which
/// the host starts, the release of all motors.
#[derive(Debug, PartialEq, Eq)]
pub struct Startup {
    pub room: Room,
    pub mqtt: MqttConfig,
    pub first: MotorCommand,
}

impl BlindsConfig {
    /// The controller for the one room that the configuration describes. A
    /// configuration that describes no room is refused, and so is one that
    /// describes two.
    pub fn driver_from_config(self) -> (startup: Result<Startup, DriverError>)
        ensures
            match (self.living_room_blinds, self.bedroom_blinds) {
                (Some(config), None) => startup matches Ok(started) && started.room
                    matches Room::LivingRoom(room) && room.config == config && room.state is Other
                    && started.mqtt == config.mqtt && started.first == (MotorCommand::Release {
                    motor: BROADCAST_ID,
                }),
                (None, Some(config)) => startup matches Ok(started) && started.room
                    matches Room::Bedroom(room) && room.config == config && room.state is Other
                    && started.mqtt == config.mqtt && started.first == (MotorCommand::Release {
                    motor: BROADCAST_ID,
                }),
                (None, None) => startup matches Err(error) && error
                    == DriverError::MissingRoomConfiguration,
                (Some(_), Some(_)) => startup matches Err(error) && error
                    == DriverError::BothRoomConfigsPresent,
            },
    {
        match (self.living_room_blinds, self.bedroom_blinds) {
            (Some(config), None) => {
                let mqtt = config.mqtt.clone();
                let (room, first) = LivingRoomBlinds::new(config);
                Ok(Startup { room: Room::LivingRoom(room), mqtt, first })
            },
            (None, Some(config)) => {
                let mqtt = config.mqtt.clone();
                let (room, first) = BedroomBlinds::new(config);
                Ok(Startup { room: Room::Bedroom(room), mqtt, first })
            },
            (None, None) => Err(DriverError::MissingRoomConfiguration),
            (Some(_), Some(_)) => Err(DriverError::BothRoomConfigsPresent),
        }
    }
}

} // verus!
