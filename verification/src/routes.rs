//! From messages to commands.
//!
//! A room takes commands on the topics below its base route. The last part
//! of the topic says what is asked: `open`, `close` and `toggle` need no
//! payload, `partial` takes a decimal fraction as text, and `command` takes
//! a JSON object whose `action` is one of `open`, `close`, `toggle` and
//! `partial`, the last with the fraction as `open`. A wall switch reports
//! its clicks as JSON objects on a topic of its own.
//!
//! Topics and payloads are compared byte by byte, as UTF-8.

use crate::driver::{Blinds, Turn};
use crate::error::DriverError;
use crate::decimal::{parse_fraction, written_fraction};
use crate::fraction::Fraction;
use crate::json::{json_member, read_member};
use vstd::prelude::*;
use vstd::string::*;

verus! {

/// What a room can be told over the message bus.
#[derive(Clone, Copy, Debug, PartialEq, Eq, Structural)]
pub enum Command {
    Open,
    Close,
    Toggle,
    Partial { open: Fraction },
}

/// A click of the wall switch.
#[derive(Clone, Copy, Debug, PartialEq, Eq, Structural)]
pub enum Action {
    Single,
    Double,
    Long,
}

/// What the wall switch reports. It also reports on its battery and its
/// radio link, which are of no concern here.
#[derive(Clone, Copy, Debug, PartialEq, Eq, Structural)]
pub struct SwitchPayload {
    pub action: Action,
}

/// What the last part of a topic asks for.
#[derive(Clone, Copy, Debug, PartialEq, Eq, Structural)]
pub enum Route {
    Open,
    Close,
    Toggle,
    Partial,
    Command,
}

/// Whether `text` ends with `suffix`.
pub open spec fn has_suffix(text: Seq<u8>, suffix: Seq<u8>) -> bool {
    suffix.len() <= text.len() && text.subrange(text.len() - suffix.len(), text.len() as int)
        == suffix
}

/// Whether `text` begins with `prefix`.
pub open spec fn has_prefix(text: Seq<u8>, prefix: Seq<u8>) -> bool {
    prefix.len() <= text.len() && text.subrange(0, prefix.len() as int) == prefix
}

/// Whether `text` holds `part` from place `from` on.
fn holds_at(text: &[u8], from: usize, part: &[u8]) -> (yes: bool)
    requires
        from + part@.len() <= text@.len(),
    ensures
        yes == (text@.subrange(from as int, from + part@.len()) == part@),
{
    let length = text.len();
    let mut at: usize = 0;
    while at < part.len()
        invariant
            at <= part@.len(),
            from + part@.len() <= text@.len(),
            text@.len() == length,
            forall|i: int| 0 <= i < at ==> text@[from + i] == part@[i],
        decreases part@.len() - at,
    {
        if text[from + at] != part[at] {
            assert(text@.subrange(from as int, from + part@.len())[at as int] != part@[at as int]);
            return false;
        }
        at = at + 1;
    }
    assert(text@.subrange(from as int, from + part@.len()) =~= part@);
    true
}

/// Decides whether `text` ends with `suffix`.
pub fn ends_with(text: &[u8], suffix: &[u8]) -> (yes: bool)
    ensures
        yes == has_suffix(text@, suffix@),
{
    suffix.len() <= text.len() && holds_at(text, text.len() - suffix.len(), suffix)
}

/// Decides whether `text` begins with `prefix`.
pub fn starts_with(text: &[u8], prefix: &[u8]) -> (yes: bool)
    ensures
        yes == has_prefix(text@, prefix@),
{
    prefix.len() <= text.len() && holds_at(text, 0, prefix)
}

/// Decides whether two texts are the same.
pub fn same_bytes(left: &[u8], right: &[u8]) -> (yes: bool)
    ensures
        yes == (left@ == right@),
{
    if left.len() != right.len() {
        return false;
    }
    let yes = holds_at(left, 0, right);
    assert(left@.subrange(0, left@.len() as int) =~= left@);
    yes
}

/// What a topic asks for, by its ending; `None` if it ends in none of the
/// five words.
pub open spec fn topic_route(topic: Seq<u8>) -> Option<Route> {
    if has_suffix(topic, "open".spec_bytes()) {
        Some(Route::Open)
    } else if has_suffix(topic, "close".spec_bytes()) {
        Some(Route::Close)
    } else if has_suffix(topic, "toggle".spec_bytes()) {
        Some(Route::Toggle)
    } else if has_suffix(topic, "partial".spec_bytes()) {
        Some(Route::Partial)
    } else if has_suffix(topic, "command".spec_bytes()) {
        Some(Route::Command)
    } else {
        None
    }
}

/// Reads off a topic what it asks for.
pub fn route_of(topic: &str) -> (route: Option<Route>)
    ensures
        route == topic_route(topic.spec_bytes()),
{
    let bytes = topic.as_bytes();
    if ends_with(bytes, "open".as_bytes()) {
        Some(Route::Open)
    } else if ends_with(bytes, "close".as_bytes()) {
        Some(Route::Close)
    } else if ends_with(bytes, "toggle".as_bytes()) {
        Some(Route::Toggle)
    } else if ends_with(bytes, "partial".as_bytes()) {
        Some(Route::Partial)
    } else if ends_with(bytes, "command".as_bytes()) {
        Some(Route::Command)
    } else {
        None
    }
}

/// The command that a fraction written as text asks for.
pub open spec fn partial_command(text: Option<Seq<u8>>) -> Result<Command, DriverError> {
    match text {
        Some(text) => match written_fraction(text) {
            Some(open) => Ok(Command::Partial { open }),
            None => Err(DriverError::MalformedPayload),
        },
        None => Err(DriverError::MalformedPayload),
    }
}

/// The command that an action object asks for, given its members `action`
/// and `open`.
pub open spec fn spec_command_of(action: Option<Seq<u8>>, open: Option<Seq<u8>>) -> Result<
    Command,
    DriverError,
> {
    match action {
        Some(action) => {
            if action == "open".spec_bytes() {
                Ok(Command::Open)
            } else if action == "close".spec_bytes() {
                Ok(Command::Close)
            } else if action == "toggle".spec_bytes() {
                Ok(Command::Toggle)
            } else if action == "partial".spec_bytes() {
                partial_command(open)
            } else {
                Err(DriverError::MalformedPayload)
            }
        },
        None => Err(DriverError::MalformedPayload),
    }
}

/// The bytes of a member that was read, if there is one.
pub open spec fn bytes_of(member: Option<Vec<u8>>) -> Option<Seq<u8>> {
    match member {
        Some(bytes) => Some(bytes@),
        None => None,
    }
}

fn partial_from(text: &Option<Vec<u8>>) -> (command: Result<Command, DriverError>)
    ensures
        command == partial_command(bytes_of(*text)),
{
    match text {
        Some(text) => match parse_fraction(text.as_slice()) {
            Some(open) => Ok(Command::Partial { open }),
            None => Err(DriverError::MalformedPayload),
        },
        None => Err(DriverError::MalformedPayload),
    }
}

/// Decides which command an action object asks for, given its members
/// `action` and `open` as they were read. An object without an action, with
/// an action that is none of the four, or with a partial action and no
/// fraction to go with it is malformed.
pub fn command_of(action: &Option<Vec<u8>>, open: &Option<Vec<u8>>) -> (command: Result<
    Command,
    DriverError,
>)
    ensures
        command == spec_command_of(bytes_of(*action), bytes_of(*open)),
{
    match action {
        Some(action) => {
            let action = action.as_slice();
            if same_bytes(action, "open".as_bytes()) {
                Ok(Command::Open)
            } else if same_bytes(action, "close".as_bytes()) {
                Ok(Command::Close)
            } else if same_bytes(action, "toggle".as_bytes()) {
                Ok(Command::Toggle)
            } else if same_bytes(action, "partial".as_bytes()) {
                partial_from(open)
            } else {
                Err(DriverError::MalformedPayload)
            }
        },
        None => Err(DriverError::MalformedPayload),
    }
}

/// The click that a switch report tells of, given its member `action`.
pub open spec fn spec_switch_action(action: Option<Seq<u8>>) -> Result<Action, DriverError> {
    match action {
        Some(action) => {
            if action == "single".spec_bytes() {
                Ok(Action::Single)
            } else if action == "double".spec_bytes() {
                Ok(Action::Double)
            } else if action == "long".spec_bytes() {
                Ok(Action::Long)
            } else {
                Err(DriverError::MalformedPayload)
            }
        },
        None => Err(DriverError::MalformedPayload),
    }
}

/// Decides which click a switch report tells of, given its member `action`
/// as it was read. A report without an action, or with one that is none of
/// the three clicks, is malformed.
pub fn switch_action(action: &Option<Vec<u8>>) -> (click: Result<Action, DriverError>)
    ensures
        click == spec_switch_action(bytes_of(*action)),
{
    match action {
        Some(action) => {
            let action = action.as_slice();
            if same_bytes(action, "single".as_bytes()) {
                Ok(Action::Single)
            } else if same_bytes(action, "double".as_bytes()) {
                Ok(Action::Double)
            } else if same_bytes(action, "long".as_bytes()) {
                Ok(Action::Long)
            } else {
                Err(DriverError::MalformedPayload)
            }
        },
        None => Err(DriverError::MalformedPayload),
    }
}

impl Action {
    /// What a click asks of the room: a single click closes it, a long one
    /// opens it, and a double click asks for nothing.
    pub open spec fn spec_command(self) -> Option<Command> {
        match self {
            Action::Single => Some(Command::Close),
            Action::Double => None,
            Action::Long => Some(Command::Open),
        }
    }

    pub fn command(self) -> (command: Option<Command>)
        ensures
            command == self.spec_command(),
    {
        match self {
            Action::Single => Some(Command::Close),
            Action::Double => None,
            Action::Long => Some(Command::Open),
        }
    }
}

impl SwitchPayload {
    /// The report that the payload holds.
    pub open spec fn spec_decode(content: Seq<u8>) -> Result<SwitchPayload, DriverError> {
        match spec_switch_action(json_member(content, "action"@)) {
            Ok(action) => Ok(SwitchPayload { action }),
            Err(error) => Err(error),
        }
    }

    /// Reads a report of the wall switch. Of the report only the action is
    /// looked at.
    pub fn decode(content: &[u8]) -> (payload: Result<SwitchPayload, DriverError>)
        ensures
            payload == Self::spec_decode(content@),
    {
        let action = read_member(content, "action");
        match switch_action(&action) {
            Ok(action) => Ok(SwitchPayload { action }),
            Err(error) => Err(error),
        }
    }
}

/// What a handler makes of a message: a command for the room, nothing at
/// all, or the refusal of a message that it cannot read.
pub type Handled = Result<Option<Command>, DriverError>;

/// The handler of the topics below the room's base route.
#[derive(Clone, Copy, Debug)]
pub struct BlindsHandler {}

/// The handler of the wall switch's topic.
#[derive(Clone, Copy, Debug)]
pub struct SwitchHandler {}

/// What the room's handler makes of a message.
pub open spec fn blinds_handled(topic: Seq<u8>, content: Seq<u8>) -> Handled {
    match topic_route(topic) {
        Some(Route::Open) => Ok(Some(Command::Open)),
        Some(Route::Close) => Ok(Some(Command::Close)),
        Some(Route::Toggle) => Ok(Some(Command::Toggle)),
        Some(Route::Partial) => match partial_command(Some(content)) {
            Ok(command) => Ok(Some(command)),
            Err(error) => Err(error),
        },
        Some(Route::Command) => match spec_command_of(
            json_member(content, "action"@),
            json_member(content, "open"@),
        ) {
            Ok(command) => Ok(Some(command)),
            Err(error) => Err(error),
        },
        None => Ok(None),
    }
}

/// What the switch's handler makes of a message.
pub open spec fn switch_handled(content: Seq<u8>) -> Handled {
    match SwitchPayload::spec_decode(content) {
        Ok(payload) => Ok(payload.action.spec_command()),
        Err(error) => Err(error),
    }
}

impl BlindsHandler {
    pub fn new() -> BlindsHandler {
        BlindsHandler {  }
    }

    /// Reads a message as a command for the room. A topic that asks for
    /// nothing the room knows gives no command and no error.
    pub fn call(&self, topic: &str, content: &[u8]) -> (handled: Handled)
        ensures
            handled == blinds_handled(topic.spec_bytes(), content@),
    {
        match route_of(topic) {
            Some(Route::Open) => Ok(Some(Command::Open)),
            Some(Route::Close) => Ok(Some(Command::Close)),
            Some(Route::Toggle) => Ok(Some(Command::Toggle)),
            Some(Route::Partial) => match parse_fraction(content) {
                Some(open) => Ok(Some(Command::Partial { open })),
                None => Err(DriverError::MalformedPayload),
            },
            Some(Route::Command) => {
                let action = read_member(content, "action");
                let open = read_member(content, "open");
                match command_of(&action, &open) {
                    Ok(command) => Ok(Some(command)),
                    Err(error) => Err(error),
                }
            },
            None => Ok(None),
        }
    }
}

impl SwitchHandler {
    pub fn new() -> SwitchHandler {
        SwitchHandler {  }
    }

    /// Reads a report of the wall switch as a command for the room: a
    /// single click closes it, a long click opens it, and a double click
    /// gives no command.
    pub fn call(&self, content: &[u8]) -> (handled: Handled)
        ensures
            handled == switch_handled(content@),
    {
        match SwitchPayload::decode(content) {
            Ok(payload) => Ok(payload.action.command()),
            Err(error) => Err(error),
        }
    }
}

/// Path of the HTTP request that opens the blinds.
pub const OPEN_BLINDS_PATH: &'static str = "/open_blinds";

/// Path of the HTTP request that closes the blinds.
pub const CLOSE_BLINDS_PATH: &'static str = "/close_blinds";

/// Status of the answer to an HTTP request that was carried out.
pub const STATUS_OK: u16 = 200;

/// Status of the answer to an HTTP request that failed, for whatever
/// reason.
pub const STATUS_INTERNAL_SERVER_ERROR: u16 = 500;

/// The status with which an HTTP request is answered once its operation has
/// come to an end: the caller learns whether it worked, and no more.
pub fn http_status(outcome: &Result<(), DriverError>) -> (status: u16)
    ensures
        status == (if outcome is Ok {
            STATUS_OK
        } else {
            STATUS_INTERNAL_SERVER_ERROR
        }),
{
    match outcome {
        Ok(_) => STATUS_OK,
        Err(_) => STATUS_INTERNAL_SERVER_ERROR,
    }
}

/// The room after `command` and the turn that the command's operation
/// begins with.
pub open spec fn spec_execute<Room: Blinds>(room: Room, command: Command) -> (
    Room,
    Turn<Room::Operation>,
) {
    match command {
        Command::Open => room.spec_open(),
        Command::Close => room.spec_close(),
        Command::Toggle => room.spec_toggle(),
        Command::Partial { open } => room.spec_partial_open(open),
    }
}

/// Begins the operation that `command` asks for.
pub fn execute<Room: Blinds>(room: &mut Room, command: Command) -> (turn: Turn<Room::Operation>)
    ensures
        (*final(room), turn) == spec_execute(*old(room), command),
{
    match command {
        Command::Open => room.open(),
        Command::Close => room.close(),
        Command::Toggle => room.toggle(),
        Command::Partial { open } => room.partial_open(open),
    }
}

} // verus!
