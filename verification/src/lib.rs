//! Central-station core for OCPP 1.6-J, verified with Verus.
//!
//! Chargers connect over WebSocket and exchange Calls, CallResults and
//! CallErrors. This library holds what is decided about those messages:
//!
//! - `action`: the closed set of actions and their wire names;
//! - `json`: JSON values, as `serde_json` holds them and as mathematics;
//! - `types` and `codec`: the three envelopes, and frames to JSON and back;
//! - `bodies`, `records` and `payload`: the message bodies, carried or
//!   held, and the payload of a message;
//! - `state` and `config`: the allow-list of serial numbers and where it
//!   comes from;
//! - `handlers`: what is answered to a frame;
//! - `session`: the state machine of one connection;
//! - `routes`: the health answer;
//! - `time`: instants.
//!
//! The library does no input or output. Its caller reads the socket, the
//! environment and the clock of the process start, and sends what the
//! library hands out.

pub mod action;
pub mod bodies;
pub mod codec;
pub mod config;
pub mod handlers;
pub mod json;
pub mod payload;
pub mod records;
pub mod routes;
pub mod session;
pub mod state;
pub mod time;
pub mod types;
