//! The registry of peer connections, what a peer connection does with a
//! message of its client, and the fan-out of updates to a room.

use snowflake::SnowflakeIdGenerator;
use std::collections::HashMap;
use vstd::prelude::*;
use vstd::string::*;

use crate::database::{Database, DatabaseView};
use crate::error::{AppError, AppErrorKind, AppErrorTemplate, AppErrorView};
use crate::services::message::handlers::{post_message, posted_with};
use crate::services::message::model::MessagePublic;
use crate::services::user::model::{UserPublic, UserView};
use crate::web_rtc::connection::WebRtcConnection;
use crate::web_rtc::message::{
    web_rtc_message_views,
    DisconnectionMessage,
    MessageUpdateMessage,
    Opcode,
    RegistrationMessage,
    UserUpdateMessage,
    WebRtcMessage,
    WebRtcMessagePayload,
    WebRtcMessagePayloadView,
    WebRtcMessageView,
};

verus! {

broadcast use vstd::std_specs::hash::group_hash_axioms;

/// What is to be done, outside of the library, after a peer connection
/// has handled a message.
#[derive(Debug)]
pub enum WebRtcReaction {
    /// Nothing.
    Ignore,
    /// Hand this to the registry, which routes it back to the connection.
    Send(WebRtcMessage),
    /// Hand this to the registry, which tells the room.
    Broadcast(MessageUpdateMessage),
}

/// The registry of the peer connections: from the id of a connection to
/// its address, of type `H`.
pub struct WebRtc<H> {
    connections: HashMap<i64, H>,
}

impl<H> View for WebRtc<H> {
    type V = Map<i64, H>;

    closed spec fn view(&self) -> Map<i64, H> {
        self.connections@
    }
}

/// The error for a connection that is not registered: a failure of the
/// server, of status 500.
pub open spec fn not_registered() -> AppErrorView {
    AppErrorView {
        http_code: 500,
        json_code: 500,
        message: "Couldn't find WebRtc connection"@,
        kind: AppErrorKind::Other,
    }
}

/// The update a reaction asks to broadcast.
pub open spec fn broadcast_of(result: Result<WebRtcReaction, AppError>) -> Result<
    MessageUpdateMessage,
    AppError,
> {
    match result {
        Ok(WebRtcReaction::Broadcast(update)) => Ok(update),
        Ok(_) => Err(arbitrary()),
        Err(e) => Err(e),
    }
}

/// The reply to a heartbeat: a `Response` without a body, with the
/// correlation id and the connection of the heartbeat.
pub open spec fn heartbeat_reply(message: WebRtcMessageView) -> WebRtcMessageView {
    WebRtcMessageView {
        id: message.id,
        connection_id: message.connection_id,
        opcode: Opcode::Response,
        payload: WebRtcMessagePayloadView::Empty,
    }
}

/// The error reply to the request `id` on the connection `connection_id`:
/// an `Error` message with the code of the error and the message a client
/// may see.
pub open spec fn spec_error_reply(id: i64, connection_id: i64, error: AppErrorView) -> WebRtcMessageView {
    WebRtcMessageView {
        id,
        connection_id,
        opcode: Opcode::Error,
        payload: WebRtcMessagePayloadView::Response {
            code: error.json_code,
            message: error.safe_message(),
        },
    }
}

/// Whether a peer connection handled a message as it must. It answers a
/// heartbeat and notes its time. It posts the message of a request to
/// post one, and refuses any other request as a `BadRequest`. It ignores
/// anything else.
pub open spec fn handled(
    before: WebRtcConnection,
    after: WebRtcConnection,
    message: WebRtcMessage,
    store_before: DatabaseView,
    store_after: DatabaseView,
    now: u64,
    result: Result<WebRtcReaction, AppError>,
) -> bool {
    &&& (message.opcode == Opcode::HeartBeat ==> {
        &&& result matches Ok(WebRtcReaction::Send(reply)) && reply@ == heartbeat_reply(message@)
        &&& after == (WebRtcConnection { last_heartbeat_at: now, ..before })
        &&& store_after == store_before
    })
    &&& (message.opcode == Opcode::Request && message.payload@ is RequestPostMessage ==> {
        &&& after == before
        &&& result is Ok ==> result->Ok_0 is Broadcast
        &&& exists|id: i64|
            #[trigger] posted_with(
                id,
                message.payload@->RequestPostMessage_content,
                before,
                store_before,
                store_after,
                broadcast_of(result),
            )
    })
    &&& (message.opcode == Opcode::Request && !(message.payload@ is RequestPostMessage) ==> {
        &&& result matches Err(e) && e@ == AppErrorTemplate::BadRequest(None).spec_error()
        &&& after == before
        &&& store_after == store_before
    })
    &&& (message.opcode != Opcode::HeartBeat && message.opcode != Opcode::Request ==> {
        &&& result matches Ok(WebRtcReaction::Ignore)
        &&& after == before
        &&& store_after == store_before
    })
}

/// The connection ids of users, user by user.
pub open spec fn connection_ids(users: Seq<UserView>) -> Seq<i64>
    decreases users.len(),
{
    if users.len() == 0 {
        Seq::empty()
    } else {
        connection_ids(users.drop_last()) + users.last().active_connection_ids
    }
}

/// Holds of a connection id that is registered in `connections`.
pub open spec fn is_registered<H>(connections: Map<i64, H>) -> spec_fn(i64) -> bool {
    |id: i64| connections.contains_key(id)
}

/// The connections an update to the room `room_id` goes to: the
/// connections of the users of the room that are registered, in the order
/// of the users and of their connections.
pub open spec fn targets<H>(store: DatabaseView, connections: Map<i64, H>, room_id: i64) -> Seq<i64> {
    connection_ids(store.users_of_room(room_id)).filter(is_registered(connections))
}

/// The messages that push `payload` to `targets`, one for each.
pub open spec fn dispatches(targets: Seq<i64>, payload: WebRtcMessagePayloadView) -> Seq<
    WebRtcMessageView,
> {
    Seq::new(
        targets.len(),
        |i: int|
            WebRtcMessageView {
                id: -1i64,
                connection_id: targets[i],
                opcode: Opcode::Dispatch,
                payload,
            },
    )
}

impl<H> WebRtc<H> {
    /// A registry without connections.
    pub fn new() -> (result: Self)
        ensures
            result@ == Map::<i64, H>::empty(),
    {
        WebRtc { connections: HashMap::new() }
    }

    /// The number of registered connections. A registry that stops while
    /// this is not zero only logs it.
    pub fn stopping(&self) -> (result: usize)
        ensures
            result == self@.len(),
    {
        self.connections.len()
    }

    /// The address of the connection `id`; an error of status 500 where it
    /// is not registered.
    pub fn get_connection(&self, id: &i64) -> (result: Result<&H, AppError>)
        ensures
            match result {
                Ok(address) => self@.contains_key(*id) && *address == self@[*id],
                Err(e) => !self@.contains_key(*id) && e@ == not_registered(),
            },
    {
        match self.connections.get(id) {
            Some(connection) => Ok(connection),
            None => Err(
                AppError::new(
                    500,
                    None,
                    String::from_str("Couldn't find WebRtc connection"),
                    None,
                ),
            ),
        }
    }

    /// Routes a message: the address of the connection it belongs to.
    pub fn handle(&self, message: &WebRtcMessage) -> (result: Result<&H, AppError>)
        ensures
            match result {
                Ok(address) => self@.contains_key(message.connection_id) && *address
                    == self@[message.connection_id],
                Err(e) => !self@.contains_key(message.connection_id) && e@ == not_registered(),
            },
    {
        self.get_connection(&message.connection_id)
    }

    /// Registers a connection under its id, in place of any connection
    /// registered under it.
    pub fn handle_registration(&mut self, message: RegistrationMessage, address: H)
        ensures
            final(self)@ == old(self)@.insert(message.connection_id, address),
    {
        self.connections.insert(message.connection_id, address);
    }

    /// Forgets the connection of a disconnection; nothing changes where it
    /// is not registered.
    pub fn handle_disconnection(&mut self, message: DisconnectionMessage)
        ensures
            final(self)@ == old(self)@.remove(message.connection_id),
    {
        self.connections.remove(&message.connection_id);
    }

    /// The error reply to the request `message_id` of a connection.
    pub fn error_reply(message_id: i64, connection_id: i64, error: &AppError) -> (result:
        WebRtcMessage)
        ensures
            result@ == spec_error_reply(message_id, connection_id, error@),
    {
        WebRtcMessage {
            id: message_id,
            connection_id,
            opcode: Opcode::Error,
            payload: WebRtcMessagePayload::Response {
                code: error.json_code,
                message: error.get_safe_message(),
            },
        }
    }

    /// What a peer connection does with a message of its client.
    pub fn handle_message(
        connection: &mut WebRtcConnection,
        message: WebRtcMessage,
        store: &mut Database,
        generator: &mut SnowflakeIdGenerator,
        now: u64,
    ) -> (result: Result<WebRtcReaction, AppError>)
        ensures
            handled(
                *old(connection),
                *final(connection),
                message,
                old(store)@,
                final(store)@,
                now,
                result,
            ),
    {
        match message.opcode {
            Opcode::HeartBeat => {
                connection.last_heartbeat_at = now;
                Ok(
                    WebRtcReaction::Send(
                        WebRtcMessage {
                            id: message.id,
                            connection_id: message.connection_id,
                            opcode: Opcode::Response,
                            payload: WebRtcMessagePayload::Empty,
                        },
                    ),
                )
            },
            Opcode::Request => {
                match message.payload {
                    WebRtcMessagePayload::RequestPostMessage { .. } => {
                        match post_message(message, connection, store, generator) {
                            Ok(update) => Ok(WebRtcReaction::Broadcast(update)),
                            Err(e) => Err(e),
                        }
                    },
                    _ => Err(AppError::from_template(AppErrorTemplate::BadRequest(None))),
                }
            },
            Opcode::Response => Ok(WebRtcReaction::Ignore),
            Opcode::Error => Ok(WebRtcReaction::Ignore),
            Opcode::Dispatch => Ok(WebRtcReaction::Ignore),
            Opcode::Hello => Ok(WebRtcReaction::Ignore),
        }
    }

    /// The connections an update to the room `room_id` goes to.
    fn collect_targets(&self, store: &Database, room_id: i64) -> (result: Vec<i64>)
        ensures
            result@ == targets(store@, self@, room_id),
    {
        let users = store.find_users_by_room_id(room_id);
        let ghost views = store@.users_of_room(room_id);
        let mut ids: Vec<i64> = Vec::new();
        let mut i: usize = 0;
        while i < users.len()
            invariant
                i <= users.len(),
                views == crate::database::user_views(users@),
                ids@ == connection_ids(views.take(i as int)),
            decreases users.len() - i,
        {
            proof {
                assert(views.take(i + 1).drop_last() =~= views.take(i as int));
                assert(views.take(i + 1).last() == users@[i as int]@);
            }
            let ghost before = ids@;
            let mut j: usize = 0;
            while j < users[i].active_connection_ids.len()
                invariant
                    i < users.len(),
                    j <= users@[i as int].active_connection_ids@.len(),
                    ids@ == before + users@[i as int].active_connection_ids@.take(j as int),
                decreases users@[i as int].active_connection_ids@.len() - j,
            {
                ids.push(users[i].active_connection_ids[j]);
                proof {
                    let all = users@[i as int].active_connection_ids@;
                    assert(all.take(j + 1) =~= all.take(j as int).push(all[j as int]));
                    assert(ids@ =~= before + all.take(j + 1));
                }
                j += 1;
            }
            proof {
                let all = users@[i as int].active_connection_ids@;
                assert(all.take(j as int) =~= all);
            }
            i += 1;
        }
        proof {
            assert(views.take(i as int) =~= views);
        }
        let mut result: Vec<i64> = Vec::new();
        let mut k: usize = 0;
        while k < ids.len()
            invariant
                k <= ids.len(),
                result@ == ids@.take(k as int).filter(is_registered(self@)),
            decreases ids.len() - k,
        {
            proof {
                ids@.lemma_take_succ_push(k as int);
                ids@.take(k as int).lemma_filter_push(ids@[k as int], is_registered(self@));
            }
            if self.connections.contains_key(&ids[k]) {
                result.push(ids[k]);
            }
            k += 1;
        }
        proof {
            ids@.lemma_take_len();
        }
        result
    }

    /// The fan-out of a presence update: the messages to send, one to each
    /// registered connection of each user of the room. A connection that
    /// is not registered is passed over.
    pub fn handle_user_update(&self, store: &Database, message: UserUpdateMessage) -> (result:
        Result<Vec<WebRtcMessage>, AppError>)
        ensures
            result matches Ok(list) && web_rtc_message_views(list@) == dispatches(
                targets(store@, self@, message.room_id),
                WebRtcMessagePayloadView::DispatchUserUpdate { user: message.user@.public() },
            ),
    {
        let targets = self.collect_targets(store, message.room_id);
        let user = UserPublic::from(message.user);
        let mut list: Vec<WebRtcMessage> = Vec::new();
        let mut i: usize = 0;
        while i < targets.len()
            invariant
                i <= targets.len(),
                list@.len() == i,
                forall|j: int|
                    0 <= j < i ==> list@[j]@ == (WebRtcMessageView {
                        id: -1i64,
                        connection_id: targets@[j],
                        opcode: Opcode::Dispatch,
                        payload: WebRtcMessagePayloadView::DispatchUserUpdate { user: user@ },
                    }),
            decreases targets.len() - i,
        {
            list.push(
                WebRtcMessage {
                    id: -1,
                    connection_id: targets[i],
                    opcode: Opcode::Dispatch,
                    payload: WebRtcMessagePayload::DispatchUserUpdate { user: user.clone() },
                },
            );
            i += 1;
        }
        proof {
            assert(web_rtc_message_views(list@) =~= dispatches(
                targets@,
                WebRtcMessagePayloadView::DispatchUserUpdate { user: user@ },
            ));
        }
        Ok(list)
    }

    /// The fan-out of a posted message: the messages to send, one to each
    /// registered connection of each user of the room. A connection that
    /// is not registered is passed over.
    pub fn handle_message_update(&self, store: &Database, message: MessageUpdateMessage) -> (result:
        Result<Vec<WebRtcMessage>, AppError>)
        ensures
            result matches Ok(list) && web_rtc_message_views(list@) == dispatches(
                targets(store@, self@, message.room_id),
                WebRtcMessagePayloadView::DispatchMessageUpdate {
                    message: message.message@.public(),
                },
            ),
    {
        let targets = self.collect_targets(store, message.room_id);
        let posted = MessagePublic::from(message.message);
        let mut list: Vec<WebRtcMessage> = Vec::new();
        let mut i: usize = 0;
        while i < targets.len()
            invariant
                i <= targets.len(),
                list@.len() == i,
                forall|j: int|
                    0 <= j < i ==> list@[j]@ == (WebRtcMessageView {
                        id: -1i64,
                        connection_id: targets@[j],
                        opcode: Opcode::Dispatch,
                        payload: WebRtcMessagePayloadView::DispatchMessageUpdate {
                            message: posted@,
                        },
                    }),
            decreases targets.len() - i,
        {
            list.push(
                WebRtcMessage {
                    id: -1,
                    connection_id: targets[i],
                    opcode: Opcode::Dispatch,
                    payload: WebRtcMessagePayload::DispatchMessageUpdate {
                        message: posted.clone(),
                    },
                },
            );
            i += 1;
        }
        proof {
            assert(web_rtc_message_views(list@) =~= dispatches(
                targets@,
                WebRtcMessagePayloadView::DispatchMessageUpdate { message: posted@ },
            ));
        }
        Ok(list)
    }
}

} // verus!
