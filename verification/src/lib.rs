//! Signaling and messaging relay: the domain store, the wire codec, the
//! connection registries and the decisions of the control and peer
//! connections, with machine-checked contracts.
//!
//! A client opens a control connection, authorizes, asks to join a room and
//! negotiates a peer connection, over which chat messages and presence
//! updates then travel. The library holds everything that is decided on the
//! way; it does no I/O. Time comes in as milliseconds on the clock of the
//! caller, frames come in as bytes, and what is to be sent or closed goes
//! out as a value that says so.
//!
//! - [`database`] keeps sessions, rooms, users and messages with their
//!   unique keys; [`services`] holds the entities and the request handlers.
//! - [`codec`] reads and writes MessagePack; the envelopes and bodies of
//!   the two channels are in [`web_socket::message`] and
//!   [`web_rtc::message`].
//! - [`web_socket`] and [`web_rtc`] hold the registries and the state
//!   machines of the two kinds of connection.

pub mod codec;
pub mod constants;
pub mod database;
pub mod error;
pub mod services;
pub mod utils;
pub mod web_rtc;
pub mod web_socket;

use vstd::prelude::*;

verus! {

/// The wire encodings a client may choose from.
#[derive(Clone, Copy, Debug, PartialEq, Eq, Structural)]
pub enum Encoding {
    MessagePack,
}

} // verus!
