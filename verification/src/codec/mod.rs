//! The wire encoding: MessagePack values, and the bytes that carry them.

pub mod bytes;
pub mod value;
