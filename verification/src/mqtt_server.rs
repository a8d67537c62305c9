//! The room on the message bus: which topics it listens to, what it makes of
//! the messages that arrive, and what it publishes.
//!
//! The connection itself is the host's business. The host reports what
//! happens on it as [`MqttUpdate`]s and is told what to do as
//! [`MqttAction`]s.

use crate::config::MqttConfig;
use crate::driver::BlindsState;
use crate::routes::{
    blinds_handled, same_bytes, starts_with, switch_handled, BlindsHandler, Handled,
    SwitchHandler,
};
use vstd::prelude::*;
use vstd::string::*;
use vstd::utf8::encode_utf8;

verus! {

/// Seconds after which a silent connection is probed.
pub const KEEP_ALIVE_SECS: u64 = 5;

/// How many requests to the broker may be in flight.
pub const REQUEST_CAPACITY: usize = 10;

/// A message to publish.
#[derive(Debug, PartialEq, Eq)]
pub struct Publication {
    pub topic: String,
    pub payload: Vec<u8>,
}

/// Publishes the state of the blinds.
#[derive(Debug)]
pub struct StatePublisher {
    pub update_topic: String,
}

/// The payload that tells of `state`: a JSON object with the state's name
/// as its one member, `state`.
pub open spec fn state_payload(state: BlindsState) -> Seq<u8> {
    "{\"state\":\"".spec_bytes() + encode_utf8(state.spec_name()) + "\"}".spec_bytes()
}

fn append(buffer: &mut Vec<u8>, bytes: &[u8])
    ensures
        final(buffer)@ == old(buffer)@ + bytes@,
{
    let mut at: usize = 0;
    while at < bytes.len()
        invariant
            at <= bytes@.len(),
            buffer@ == old(buffer)@ + bytes@.subrange(0, at as int),
        decreases bytes@.len() - at,
    {
        buffer.push(bytes[at]);
        at = at + 1;
    }
    assert(bytes@.subrange(0, bytes@.len() as int) =~= bytes@);
}

impl StatePublisher {
    pub fn new(update_topic: String) -> (publisher: StatePublisher)
        ensures
            publisher.update_topic == update_topic,
    {
        StatePublisher { update_topic }
    }

    /// The message that tells the world of `new_state`. The host sends it
    /// at most once and goes on whether or not it arrives.
    pub fn update_state(&self, new_state: BlindsState) -> (publication: Publication)
        ensures
            publication.topic@ == self.update_topic@,
            publication.payload@ == state_payload(new_state),
    {
        let mut payload: Vec<u8> = Vec::new();
        append(&mut payload, "{\"state\":\"".as_bytes());
        append(&mut payload, new_state.name().as_bytes());
        append(&mut payload, "\"}".as_bytes());
        Publication { topic: self.update_topic.clone(), payload }
    }
}

/// Whether `topic` is the topic `base` or lies below it, that is, whether
/// the filter `base/#` lets it pass.
pub open spec fn is_under(topic: Seq<u8>, base: Seq<u8>) -> bool {
    topic == base || (topic.len() > base.len() && topic.subrange(0, base.len() as int) == base
        && topic[base.len() as int] == 0x2f)
}

/// What the handlers made of a message, each for itself: `None` for a
/// handler that the topic does not belong to.
#[derive(Debug, PartialEq, Eq)]
pub struct Routed {
    pub blinds: Option<Handled>,
    pub switch: Option<Handled>,
}

impl Routed {
    /// Whether any handler took the message.
    pub open spec fn was_handled(self) -> bool {
        self.blinds is Some || self.switch is Some
    }

    pub fn handled(&self) -> (yes: bool)
        ensures
            yes == self.was_handled(),
    {
        self.blinds.is_some() || self.switch.is_some()
    }
}

/// The topics of a room and their handlers.
#[derive(Debug)]
pub struct CommandRouter {
    /// The room's handler takes this topic and every topic below it.
    pub base_route: String,
    /// The switch's handler takes this topic, if there is one.
    pub switch_topic: Option<String>,
}

impl CommandRouter {
    pub fn new(base_route: String, switch_topic: Option<String>) -> (router: CommandRouter)
        ensures
            router.base_route == base_route,
            router.switch_topic == switch_topic,
    {
        CommandRouter { base_route, switch_topic }
    }

    /// The filters to subscribe to, as text: `base_route/#` and, if the
    /// room has a switch, the switch's topic.
    pub open spec fn filters(self) -> Seq<Seq<char>> {
        match self.switch_topic {
            Some(topic) => seq![self.base_route@ + "/#"@, topic@],
            None => seq![self.base_route@ + "/#"@],
        }
    }

    /// The filters to subscribe to. They are the same at every call, so
    /// that the subscriptions can be made anew whenever the connection has
    /// been lost.
    pub fn topics_for_subscription(&self) -> (topics: Vec<String>)
        ensures
            topics@.len() == self.filters().len(),
            forall|i: int| 0 <= i < topics@.len() ==> (#[trigger] topics@[i])@ == self.filters()[i],
    {
        let mut topics: Vec<String> = Vec::new();
        topics.push(self.base_route.clone().concat("/#"));
        match &self.switch_topic {
            Some(topic) => {
                topics.push(topic.clone());
            },
            None => {},
        }
        topics
    }

    /// What the handlers make of a message on `topic`.
    pub open spec fn routed(self, topic: Seq<u8>, payload: Seq<u8>) -> Routed {
        Routed {
            blinds: if is_under(topic, encode_utf8(self.base_route@)) {
                Some(blinds_handled(topic, payload))
            } else {
                None
            },
            switch: if self.switch_topic is Some && topic == encode_utf8(
                self.switch_topic->Some_0@,
            ) {
                Some(switch_handled(payload))
            } else {
                None
            },
        }
    }

    /// Hands a message to every handler that its topic belongs to.
    pub fn handle_message(&self, topic: &str, payload: &[u8]) -> (routed: Routed)
        ensures
            routed == self.routed(topic.spec_bytes(), payload@),
    {
        let bytes = topic.as_bytes();
        let base = self.base_route.as_str().as_bytes();
        let under = same_bytes(bytes, base) || (bytes.len() > base.len() && starts_with(bytes, base)
            && bytes[base.len()] == 0x2f);
        let blinds = if under {
            Some(BlindsHandler::new().call(topic, payload))
        } else {
            None
        };
        let switch = match &self.switch_topic {
            Some(switch_topic) => {
                if same_bytes(bytes, switch_topic.as_str().as_bytes()) {
                    Some(SwitchHandler::new().call(payload))
                } else {
                    None
                }
            },
            None => None,
        };
        Routed { blinds, switch }
    }
}

/// What happened on the connection.
#[derive(Debug)]
pub enum MqttUpdate {
    /// A message arrived.
    Message { topic: String, payload: Vec<u8> },
    /// The broker acknowledged a connection, the first or a later one.
    Reconnection,
}

/// What the host is to do about an update.
#[derive(Debug, PartialEq, Eq)]
pub enum MqttAction {
    /// Subscribe to these filters.
    Subscribe(Vec<String>),
    /// Begin the commands that the handlers found; a message that no
    /// handler took is worth a line in the log and nothing else.
    Dispatch(Routed),
}

/// Everything the host needs to put a room on the message bus.
#[derive(Debug)]
pub struct MqttService {
    pub client_id: String,
    pub broker_host: String,
    pub broker_port: u16,
    pub keep_alive_secs: u64,
    pub request_capacity: usize,
    pub router: CommandRouter,
    pub publisher: StatePublisher,
}

/// Sets the room up for the message bus as `config` describes it. The room
/// listens below the base route and, if the configuration names one, to the
/// switch's topic; it publishes its state on `state` below the base route.
pub fn start_mqtt_service(config: MqttConfig) -> (service: MqttService)
    ensures
        service.client_id == config.client_id,
        service.broker_host == config.broker_host,
        service.broker_port == config.broker_port,
        service.keep_alive_secs == KEEP_ALIVE_SECS,
        service.request_capacity == REQUEST_CAPACITY,
        service.router.base_route == config.base_route,
        service.router.switch_topic == config.switch_topic,
        service.publisher.update_topic@ == config.base_route@ + "/state"@,
{
    let update_topic = config.base_route.clone().concat("/state");
    MqttService {
        client_id: config.client_id,
        broker_host: config.broker_host,
        broker_port: config.broker_port,
        keep_alive_secs: KEEP_ALIVE_SECS,
        request_capacity: REQUEST_CAPACITY,
        router: CommandRouter::new(config.base_route, config.switch_topic),
        publisher: StatePublisher::new(update_topic),
    }
}

impl MqttService {
    /// Decides what to do about an update: a message goes to the handlers,
    /// and every acknowledged connection has the subscriptions made anew,
    /// since the broker forgets them when the connection is lost.
    pub fn on_update(&self, update: &MqttUpdate) -> (action: MqttAction)
        ensures
            match *update {
                MqttUpdate::Message { topic, payload } => action matches MqttAction::Dispatch(
                    routed,
                ) && routed == self.router.routed(encode_utf8(topic@), payload@),
                MqttUpdate::Reconnection => action matches MqttAction::Subscribe(topics)
                    && topics@.len() == self.router.filters().len() && forall|i: int|
                    0 <= i < topics@.len() ==> (#[trigger] topics@[i])@
                        == self.router.filters()[i],
            },
    {
        match update {
            MqttUpdate::Message { topic, payload } => MqttAction::Dispatch(
                self.router.handle_message(topic.as_str(), payload.as_slice()),
            ),
            MqttUpdate::Reconnection => MqttAction::Subscribe(
                self.router.topics_for_subscription(),
            ),
        }
    }
}

} // verus!
