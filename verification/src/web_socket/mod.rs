//! The control channel: its messages, its registry and its connections.

pub mod actor;
pub mod connection;
pub mod message;
pub mod routes;
