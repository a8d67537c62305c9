//! Control logic for motorised window blinds.
//!
//! The crate holds the decisions of a blinds controller and none of its
//! input or output. A room turns an intent (open, close, partial position,
//! toggle, calibrate) into a conversation with its host: every call returns
//! a [`driver::Turn`] that names the next thing the host has to do (send a
//! motor command, sleep, store the configuration), and the host answers with
//! a [`driver::protocol::Response`] and the reading of its clock. The host
//! owns the serial bus, the clock, the configuration file and the
//! connections to the outside; the crate owns everything that is decided.
//!
//! Positions are whole tenths of a degree, the unit that the motors speak on
//! the wire. Times are milliseconds.

pub mod config;
pub mod decimal;
pub mod driver;
pub mod error;
pub mod fraction;
pub mod json;
pub mod mqtt_server;
pub mod routes;
