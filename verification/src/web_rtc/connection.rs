//! The state of one peer connection and what it decides on its own.

use vstd::prelude::*;
use vstd::slice::*;
use vstd::string::*;

use crate::codec::bytes::{is_encode_failure, packed};
use crate::constants::WEB_RTC_CLIENT_TIMEOUT;
use crate::database::{Database, DatabaseView};
use crate::error::{AppError, AppErrorTemplate};
use crate::services::message::model::{Message, MessagePublic, MessagePublicView, MessageView};
use crate::services::room::handlers::PeerRequest;
use crate::services::user::model::{User, UserPublic, UserPublicView, UserView};
use crate::utils::decimal::{decimal, decimal_string};
use crate::web_rtc::message::payload::{message_public_views, user_public_views};
use crate::web_rtc::message::{
    Opcode,
    RegistrationMessage,
    SendToServiceHandlerConnectionMessage,
    WebRtcMessage,
    WebRtcMessagePayload,
    WebRtcMessagePayloadView,
    WebRtcMessageView,
};
use crate::web_socket::message::{
    Opcode as ControlOpcode,
    WebSocketMessage,
    WebSocketMessagePayload,
    WebSocketMessagePayloadView,
    WebSocketMessageView,
};
use crate::Encoding;

verus! {

/// A peer connection: the data channel negotiated over the control
/// connection of the same id.
#[derive(Clone, Copy, Debug)]
pub struct WebRtcConnection {
    pub id: i64,
    /// When the last heartbeat came, in milliseconds on the clock of the
    /// caller.
    pub last_heartbeat_at: u64,
    pub encoding: Encoding,
    pub registered_room_id: i64,
    pub registered_user_id: i64,
    pub is_closing_connection: bool,
}

/// What other clients see of users, one by one.
pub open spec fn public_users(users: Seq<UserView>) -> Seq<UserPublicView> {
    Seq::new(users.len(), |i: int| users[i].public())
}

/// What clients see of messages, one by one.
pub open spec fn public_messages(messages: Seq<MessageView>) -> Seq<MessagePublicView> {
    Seq::new(messages.len(), |i: int| messages[i].public())
}

/// The snapshot a peer connection of the user `user_id` in the room
/// `room_id` starts with: the user's id, every user of the room and every
/// message of the room, as clients see them.
pub open spec fn spec_hello(store: DatabaseView, connection_id: i64, room_id: i64, user_id: i64) -> WebRtcMessageView {
    WebRtcMessageView {
        id: -1i64,
        connection_id,
        opcode: Opcode::Hello,
        payload: WebRtcMessagePayloadView::Hello {
            user_id: decimal(user_id as int),
            users: public_users(store.users_of_room(room_id)),
            messages: public_messages(store.messages_of_room(room_id)),
        },
    }
}

/// The message that carries the offer of the server to the client of the
/// connection `connection_id`: a response that nothing asked for, with the
/// session description.
pub open spec fn spec_offer(connection_id: i64, sdp: Seq<char>) -> WebSocketMessageView {
    WebSocketMessageView {
        id: -1i64,
        connection_id,
        opcode: ControlOpcode::Response,
        payload: WebSocketMessagePayloadView::ResponseRoomRtcOffer { sdp },
    }
}

/// What is to be done with the offer when a peer connection has started.
#[derive(Debug)]
pub enum Started {
    /// Hand this message, which carries the offer, to the control
    /// connection.
    Offer(WebSocketMessage),
    /// Tell the control connection to close.
    CloseControl,
}

/// What happens to a peer connection, outside of the library.
#[derive(Clone, Copy, Debug, PartialEq, Eq, Structural)]
pub enum WebRtcEvent {
    /// The data channel could not be opened.
    ChannelFailed,
    /// The data channel is open and can be read and written.
    ChannelOpened,
    /// The answer of the client could not be applied.
    AnswerRefused,
    /// The read loop ended: a read failed, nothing was read, or what was
    /// read is no message.
    ReadEnded,
    /// A message could not be encoded or written.
    WriteFailed,
    /// The liveness check is due, at this instant.
    Tick(u64),
    /// The connection was told to close.
    CloseRequested,
}

/// What is to be done, outside of the library, after something happened to
/// a peer connection.
#[derive(Clone, Copy, Debug, PartialEq, Eq, Structural)]
pub enum WebRtcAction {
    Nothing,
    /// Tell the control connection to close.
    CloseControl,
    /// Tell this connection to close.
    Close,
    /// Send the snapshot of the room.
    Hello,
    /// Close the peer session, then stop.
    CloseSession,
}

/// What a peer connection does when something happens to it.
pub open spec fn spec_action(connection: WebRtcConnection, event: WebRtcEvent) -> WebRtcAction {
    match event {
        WebRtcEvent::ChannelFailed => WebRtcAction::CloseControl,
        WebRtcEvent::ChannelOpened => WebRtcAction::Hello,
        WebRtcEvent::AnswerRefused => WebRtcAction::CloseControl,
        WebRtcEvent::ReadEnded => WebRtcAction::Close,
        WebRtcEvent::WriteFailed => WebRtcAction::Close,
        WebRtcEvent::Tick(now) => if connection.timed_out(now) {
            WebRtcAction::Close
        } else {
            WebRtcAction::Nothing
        },
        WebRtcEvent::CloseRequested => WebRtcAction::CloseSession,
    }
}

impl WebRtcConnection {
    /// The peer connection that a join asked for.
    pub fn new(request: &PeerRequest, now: u64) -> (result: Self)
        ensures
            result == (WebRtcConnection {
                id: request.connection_id,
                last_heartbeat_at: now,
                encoding: request.encoding,
                registered_room_id: request.room_id,
                registered_user_id: request.user_id,
                is_closing_connection: false,
            }),
    {
        WebRtcConnection {
            id: request.connection_id,
            last_heartbeat_at: now,
            encoding: request.encoding,
            registered_room_id: request.room_id,
            registered_user_id: request.user_id,
            is_closing_connection: false,
        }
    }

    /// Whether the client has been silent for longer than the timeout at
    /// the instant `now`.
    pub open spec fn timed_out(&self, now: u64) -> bool {
        now - self.last_heartbeat_at > WEB_RTC_CLIENT_TIMEOUT
    }

    /// The liveness check: whether the connection is to be closed at the
    /// instant `now`.
    pub fn heartbeat(&self, now: u64) -> (close: bool)
        ensures
            close == self.timed_out(now),
    {
        now > self.last_heartbeat_at && now - self.last_heartbeat_at > WEB_RTC_CLIENT_TIMEOUT
    }

    /// What a peer connection does when it starts, once the making of its
    /// offer has ended. It is always to be registered with the peer
    /// registry under its id. Where the offer was made, its session
    /// description goes to the client over the control connection,
    /// unaltered, as a response that nothing asked for; where it failed,
    /// the control connection is told to close and no offer goes out.
    pub fn started(&self, offer: Result<String, AppError>) -> (result: (
        RegistrationMessage,
        Started,
    ))
        ensures
            result.0.connection_id == self.id,
            match offer {
                Ok(sdp) => result.1 matches Started::Offer(message) && message@ == spec_offer(
                    self.id,
                    sdp@,
                ),
                Err(_) => result.1 is CloseControl,
            },
    {
        let registration = RegistrationMessage { connection_id: self.id };
        match offer {
            Ok(sdp) => (
                registration,
                Started::Offer(
                    WebSocketMessage {
                        id: -1,
                        connection_id: self.id,
                        opcode: ControlOpcode::Response,
                        payload: WebSocketMessagePayload::ResponseRoomRtcOffer { sdp },
                    },
                ),
            ),
            Err(_) => (registration, Started::CloseControl),
        }
    }

    /// What a peer connection does when something happens to it. A failure
    /// to open the data channel or to apply the answer of the client tells
    /// the control connection to close. An open data channel asks for the
    /// snapshot. An ended read loop, a failed write, and a liveness check
    /// past the timeout tell the connection to close. Told to close, the
    /// connection notes that it is closing; the peer session is to be
    /// closed and the connection stopped. Nothing else of the connection
    /// changes.
    pub fn handle(&mut self, event: WebRtcEvent) -> (result: WebRtcAction)
        ensures
            result == spec_action(*old(self), event),
            *final(self) == (WebRtcConnection {
                is_closing_connection: old(self).is_closing_connection || event
                    == WebRtcEvent::CloseRequested,
                ..*old(self)
            }),
    {
        match event {
            WebRtcEvent::ChannelFailed => WebRtcAction::CloseControl,
            WebRtcEvent::ChannelOpened => WebRtcAction::Hello,
            WebRtcEvent::AnswerRefused => WebRtcAction::CloseControl,
            WebRtcEvent::ReadEnded => WebRtcAction::Close,
            WebRtcEvent::WriteFailed => WebRtcAction::Close,
            WebRtcEvent::Tick(now) => {
                if self.heartbeat(now) {
                    WebRtcAction::Close
                } else {
                    WebRtcAction::Nothing
                }
            },
            WebRtcEvent::CloseRequested => {
                self.is_closing_connection = true;
                WebRtcAction::CloseSession
            },
        }
    }

    /// The bytes to write to the data channel for `message`.
    pub fn send_message(encoding: Encoding, message: &WebRtcMessage) -> (result: Result<
        Vec<u8>,
        AppError,
    >)
        ensures
            match result {
                Ok(bytes) => packed(message@.to_value()) == Some(bytes@),
                Err(e) => packed(message@.to_value()) is None && is_encode_failure(e),
            },
    {
        match encoding {
            Encoding::MessagePack => message.encode(),
        }
    }

    /// What was read from the data channel, as a message to dispatch: the
    /// first `length` bytes of `buffer` are decoded and the message is
    /// marked as belonging to the connection `connection_id`. Nothing read,
    /// more read than the buffer holds, or bytes that are no message, are
    /// a `BadRequest`: the read loop ends.
    pub fn receive_message(buffer: &[u8], length: usize, connection_id: i64) -> (result: Result<
        SendToServiceHandlerConnectionMessage,
        AppError,
    >)
        ensures
            match result {
                Ok(handed) => {
                    &&& 0 < length <= buffer@.len()
                    &&& WebRtcMessageView::from_bytes(buffer@.take(length as int)) matches Some(
                        message,
                    )
                    &&& handed.message@ == (WebRtcMessageView { connection_id, ..message })
                },
                Err(e) => {
                    &&& e@ == AppErrorTemplate::BadRequest(None).spec_error()
                    &&& length == 0 || length > buffer@.len() || WebRtcMessageView::from_bytes(
                        buffer@.take(length as int),
                    ) is None
                },
            },
    {
        if length == 0 || length > buffer.len() {
            return Err(AppError::from_template(AppErrorTemplate::BadRequest(None)));
        }
        let frame = slice_subrange(buffer, 0, length);
        match WebRtcMessage::decode(frame) {
            Ok(message) => Ok(
                SendToServiceHandlerConnectionMessage {
                    message: WebRtcMessage { connection_id, ..message },
                },
            ),
            Err(_) => Err(AppError::from_template(AppErrorTemplate::BadRequest(None))),
        }
    }

    /// The snapshot to send when the data channel opens.
    pub fn hello(&self, store: &Database) -> (result: Result<WebRtcMessage, AppError>)
        ensures
            result matches Ok(message) && message@ == spec_hello(
                store@,
                self.id,
                self.registered_room_id,
                self.registered_user_id,
            ),
    {
        let users = match User::find_all_by_room_id(store, &self.registered_room_id) {
            Ok(users) => users,
            Err(e) => {
                return Err(e);
            },
        };
        let messages = match Message::find_all_by_room_id(store, &self.registered_room_id) {
            Ok(messages) => messages,
            Err(e) => {
                return Err(e);
            },
        };
        let mut public_users_list: Vec<UserPublic> = Vec::new();
        let mut i: usize = 0;
        while i < users.len()
            invariant
                i <= users.len(),
                public_users_list@.len() == i,
                forall|j: int| 0 <= j < i ==> public_users_list@[j]@ == users@[j]@.public(),
            decreases users.len() - i,
        {
            public_users_list.push(UserPublic::from(users[i].clone()));
            i += 1;
        }
        let mut public_messages_list: Vec<MessagePublic> = Vec::new();
        let mut k: usize = 0;
        while k < messages.len()
            invariant
                k <= messages.len(),
                public_messages_list@.len() == k,
                forall|j: int| 0 <= j < k ==> public_messages_list@[j]@ == messages@[j]@.public(),
            decreases messages.len() - k,
        {
            public_messages_list.push(MessagePublic::from(messages[k].clone()));
            k += 1;
        }
        proof {
            assert(user_public_views(public_users_list@) =~= public_users(
                store@.users_of_room(self.registered_room_id),
            ));
            assert(message_public_views(public_messages_list@) =~= public_messages(
                store@.messages_of_room(self.registered_room_id),
            ));
        }
        Ok(
            WebRtcMessage {
                id: -1,
                connection_id: self.id,
                opcode: Opcode::Hello,
                payload: WebRtcMessagePayload::Hello {
                    user_id: decimal_string(self.registered_user_id),
                    users: public_users_list,
                    messages: public_messages_list,
                },
            },
        )
    }
}

} // verus!
