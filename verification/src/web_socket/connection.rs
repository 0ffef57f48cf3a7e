//! The state of one control connection and what it decides on its own.

use snowflake::SnowflakeIdGenerator;
use vstd::prelude::*;

use crate::constants::WEB_SOCKET_CLIENT_TIMEOUT;
use crate::codec::bytes::{is_encode_failure, packed};
use crate::database::{Database, DatabaseView};
use crate::error::{AppError, WebSocketCloseError};
use crate::services::room::handlers::{leave, spec_leave, untouched};
use crate::utils::snowflake_generator;
use crate::web_rtc::message::{user_update_views, UserUpdateMessage, UserUpdateView};
use crate::web_socket::actor::{handled, spec_error_reply, WebSocket, WebSocketReaction};
use crate::web_socket::message::{
    DisconnectionMessage,
    WebSocketMessage,
    WebSocketMessageView,
};
use crate::Encoding;

verus! {

/// A control connection. `P` is the handle of the peer connection that was
/// negotiated over it.
pub struct WebSocketConnection<P> {
    pub id: i64,
    /// The session, once the connection has authorized.
    pub session_id: Option<i64>,
    /// When the last heartbeat came, in milliseconds on the clock of the
    /// caller.
    pub last_heartbeat_at: u64,
    pub encoding: Encoding,
    pub registered_room_id: Option<i64>,
    pub registered_user_id: Option<i64>,
    /// The peer connection attached to this one, once it is established.
    pub web_rtc_connection: Option<P>,
}

impl<P> WebSocketConnection<P> {
    /// A connection that has just been accepted: not authorized, joined to
    /// nothing, with no peer.
    pub fn new(encoding: Encoding, generator: &mut SnowflakeIdGenerator, now: u64) -> (result: Self)
        ensures
            result.session_id is None,
            result.last_heartbeat_at == now,
            result.encoding == encoding,
            result.registered_room_id is None,
            result.registered_user_id is None,
            result.web_rtc_connection is None,
    {
        WebSocketConnection {
            id: snowflake_generator::generate(generator),
            session_id: None,
            last_heartbeat_at: now,
            encoding,
            registered_room_id: None,
            registered_user_id: None,
            web_rtc_connection: None,
        }
    }

    /// Whether the client has been silent for longer than the timeout at
    /// the instant `now`.
    pub open spec fn timed_out(&self, now: u64) -> bool {
        now - self.last_heartbeat_at > WEB_SOCKET_CLIENT_TIMEOUT
    }

    /// The liveness check: whether the connection is to be closed, with a
    /// normal close, at the instant `now`.
    pub fn heartbeat(&self, now: u64) -> (close: bool)
        ensures
            close == self.timed_out(now),
    {
        now > self.last_heartbeat_at && now - self.last_heartbeat_at > WEB_SOCKET_CLIENT_TIMEOUT
    }

    /// What the connection does when its liveness check is due: a
    /// connection whose client has been silent for longer than the timeout
    /// is closed, with a normal closure; nothing happens otherwise.
    pub fn tick(&self, now: u64) -> (result: WebSocketReaction)
        ensures
            result == if self.timed_out(now) {
                WebSocketReaction::CloseNormal
            } else {
                WebSocketReaction::Ignore
            },
    {
        if self.heartbeat(now) {
            WebSocketReaction::CloseNormal
        } else {
            WebSocketReaction::Ignore
        }
    }

    /// The bytes to write to the transport for `message`.
    pub fn send_message(encoding: Encoding, message: &WebSocketMessage) -> (result: Result<
        Vec<u8>,
        AppError,
    >)
        ensures
            match result {
                Ok(bytes) => packed(message@.to_value()) == Some(bytes@),
                Err(e) => packed(message@.to_value()) is None && is_encode_failure(e),
            },
    {
        match encoding {
            Encoding::MessagePack => message.encode(),
        }
    }

    /// What the connection does with a message of its client. The message
    /// is first marked as belonging to this connection. It is then handled
    /// as [`handled`] says; an error of that becomes an error reply to
    /// write to the transport.
    pub fn handle_message(
        &mut self,
        message: WebSocketMessage,
        store: &mut Database,
        generator: &mut SnowflakeIdGenerator,
        now: u64,
        updates: &mut Vec<UserUpdateMessage>,
    ) -> (result: WebSocketReaction)
        ensures
            reacted(
                *old(self),
                *final(self),
                message@,
                old(store)@,
                final(store)@,
                now,
                user_update_views(old(updates)@),
                user_update_views(final(updates)@),
                result,
            ),
    {
        let id = message.id;
        let connection_id = self.id;
        let message = WebSocketMessage { connection_id: self.id, ..message };
        let ghost stamped = message;
        let inner = WebSocket::<P>::handle_message(self, message, store, generator, now, updates);
        proof {
            assert(handled(
                *old(self),
                *self,
                stamped,
                old(store)@,
                store@,
                now,
                user_update_views(old(updates)@),
                user_update_views(updates@),
                inner,
            ));
        }
        match inner {
            Ok(reaction) => reaction,
            Err(error) => WebSocketReaction::Write(
                WebSocket::<P>::error_reply(id, connection_id, &error),
            ),
        }
    }

    /// What the connection does with a frame of the transport. A failure
    /// of the transport stops it. A text frame, or a binary frame that is
    /// no message, closes it with `InvalidMessage`. A binary frame that is
    /// a message is handled as a message. A close frame is echoed.
    /// Anything else is ignored.
    pub fn handle(
        &mut self,
        frame: Frame,
        store: &mut Database,
        generator: &mut SnowflakeIdGenerator,
        now: u64,
        updates: &mut Vec<UserUpdateMessage>,
    ) -> (result: WebSocketReaction)
        ensures
            match frame {
                Frame::Binary(bytes) => match WebSocketMessageView::from_bytes(bytes@) {
                    Some(message) => reacted(
                        *old(self),
                        *final(self),
                        message,
                        old(store)@,
                        final(store)@,
                        now,
                        user_update_views(old(updates)@),
                        user_update_views(final(updates)@),
                        result,
                    ),
                    None => result == WebSocketReaction::Close(WebSocketCloseError::InvalidMessage)
                        && untouched(
                        *old(self),
                        *final(self),
                        old(store)@,
                        final(store)@,
                        user_update_views(old(updates)@),
                        user_update_views(final(updates)@),
                    ),
                },
                _ => {
                    &&& result == match frame {
                        Frame::Failed => WebSocketReaction::Stop,
                        Frame::Text => WebSocketReaction::Close(
                            WebSocketCloseError::InvalidMessage,
                        ),
                        Frame::Close => WebSocketReaction::EchoClose,
                        _ => WebSocketReaction::Ignore,
                    }
                    &&& untouched(
                        *old(self),
                        *final(self),
                        old(store)@,
                        final(store)@,
                        user_update_views(old(updates)@),
                        user_update_views(final(updates)@),
                    )
                },
            },
    {
        match frame {
            Frame::Failed => WebSocketReaction::Stop,
            Frame::Text => WebSocketReaction::Close(WebSocketCloseError::InvalidMessage),
            Frame::Binary(bytes) => {
                match WebSocketMessage::decode(bytes.as_slice()) {
                    Ok(message) => self.handle_message(message, store, generator, now, updates),
                    Err(_) => WebSocketReaction::Close(WebSocketCloseError::InvalidMessage),
                }
            },
            Frame::Close => WebSocketReaction::EchoClose,
            Frame::Other => WebSocketReaction::Ignore,
        }
    }

    /// What is left to do when the connection stops: it leaves its room
    /// and its user, if it is registered to them, whatever comes of that;
    /// its peer connection, if one is attached, is to be told to close; and
    /// the registry is to be told that the connection is gone.
    pub fn stopping(&self, store: &mut Database, updates: &mut Vec<UserUpdateMessage>) -> (result:
        Stopped)
        ensures
            result.close_peer == (self.web_rtc_connection is Some),
            result.disconnection.connection_id == self.id,
            result.disconnection.registered_room_id == self.registered_room_id,
            self.registered_room_id is Some && self.registered_user_id is Some ==> {
                let left = spec_leave(
                    old(store)@,
                    self.id,
                    self.registered_room_id->0,
                    self.registered_user_id->0,
                );
                &&& final(store)@ == left.store
                &&& user_update_views(final(updates)@) == user_update_views(old(updates)@)
                    + left.updates
            },
            !(self.registered_room_id is Some && self.registered_user_id is Some) ==> {
                &&& final(store)@ == old(store)@
                &&& user_update_views(final(updates)@) == user_update_views(old(updates)@)
            },
    {
        if let (Some(room_id), Some(user_id)) = (self.registered_room_id, self.registered_user_id) {
            let _ = leave(store, self.id, room_id, user_id, updates);
        }
        Stopped {
            close_peer: self.web_rtc_connection.is_some(),
            disconnection: DisconnectionMessage {
                connection_id: self.id,
                registered_room_id: self.registered_room_id,
            },
        }
    }
}

/// What the transport of a control connection delivers.
#[derive(Debug)]
pub enum Frame {
    /// The transport failed.
    Failed,
    Text,
    Binary(Vec<u8>),
    Close,
    /// A ping, a pong, a continuation.
    Other,
}

/// What is left to do when a control connection has stopped.
#[derive(Clone, Copy, Debug)]
pub struct Stopped {
    /// Whether the attached peer connection is to be told to close.
    pub close_peer: bool,
    /// What to tell the registry.
    pub disconnection: DisconnectionMessage,
}

/// Whether a connection reacted to a message of its client as it must: the
/// message, marked as belonging to the connection, was handled as
/// [`handled`] says, and the reaction is that of the handling, or, where
/// it failed, the error reply to write to the transport.
pub open spec fn reacted<P>(
    before: WebSocketConnection<P>,
    after: WebSocketConnection<P>,
    message: WebSocketMessageView,
    store_before: DatabaseView,
    store_after: DatabaseView,
    now: u64,
    updates_before: Seq<UserUpdateView>,
    updates_after: Seq<UserUpdateView>,
    result: WebSocketReaction,
) -> bool {
    exists|stamped: WebSocketMessage, inner: Result<WebSocketReaction, AppError>|
        {
            &&& stamped@ == (WebSocketMessageView { connection_id: before.id, ..message })
            &&& #[trigger] handled(
                before,
                after,
                stamped,
                store_before,
                store_after,
                now,
                updates_before,
                updates_after,
                inner,
            )
            &&& match inner {
                Ok(reaction) => result == reaction,
                Err(error) => result matches WebSocketReaction::Write(reply) && reply@
                    == spec_error_reply(message.id, before.id, error@),
            }
        }
}

} // verus!
