//! The domain entities and the request handlers that work on them.

pub mod message;
pub mod room;
pub mod session;
pub mod user;
