//! Limits and timing constants shared by the connections and the models.

use vstd::prelude::*;

verus! {

/// Milliseconds between two liveness checks of a control connection.
pub const WEB_SOCKET_HEARTBEAT_INTERVAL: u64 = 15000;

/// Milliseconds a control connection may stay silent before it is closed.
pub const WEB_SOCKET_CLIENT_TIMEOUT: u64 = 45000;

/// Milliseconds between two liveness checks of a peer connection.
pub const WEB_RTC_HEARTBEAT_INTERVAL: u64 = 5000;

/// Milliseconds a peer connection may stay silent before it is closed.
pub const WEB_RTC_CLIENT_TIMEOUT: u64 = 15000;

/// Size in bytes of the buffer a peer connection reads one frame into.
pub const WEB_RTC_DATA_CHANNEL_BUFFER_SIZE: usize = 4096;

pub const MESSAGE_CONTENT_MIN_LENGTH: usize = 1;

pub const MESSAGE_CONTENT_MAX_LENGTH: usize = 1024;

pub const ROOM_NAME_MIN_LENGTH: usize = 3;

pub const ROOM_NAME_MAX_LENGTH: usize = 32;

pub const USER_USERNAME_MIN_LENGTH: usize = 3;

pub const USER_USERNAME_MAX_LENGTH: usize = 32;

} // verus!
