//! The registry of control connections, and what a control connection does
//! with a message of its client.

use snowflake::SnowflakeIdGenerator;
use std::collections::HashMap;
use vstd::prelude::*;
use vstd::string::*;

use crate::database::{Database, DatabaseView};
use crate::error::{AppError, AppErrorTemplate, AppErrorView, WebSocketCloseError};
use crate::services::room::handlers::{
    get_sdp_offer,
    joined_with,
    post_sdp_answer,
    untouched,
    PeerRequest,
};
use crate::services::session::model::{Session, SessionView};
use crate::utils::snowflake_generator;
use crate::web_rtc::message::{
    user_update_views,
    RtcAnswerConnectionMessage,
    UserUpdateMessage,
    UserUpdateView,
};
use crate::web_socket::connection::WebSocketConnection;
use crate::web_socket::message::{
    AuthorizationMessage,
    DisconnectionMessage,
    Opcode,
    WebSocketMessage,
    WebSocketMessagePayload,
    WebSocketMessagePayloadView,
    WebSocketMessageView,
};

verus! {

broadcast use vstd::std_specs::hash::group_hash_axioms;

/// What is to be done, outside of the library, after a control connection
/// has handled something.
#[derive(Debug)]
pub enum WebSocketReaction {
    /// Nothing.
    Ignore,
    /// Stop the connection without a close frame.
    Stop,
    /// Close the transport with this code and description, and stop.
    Close(WebSocketCloseError),
    /// Close the transport with the code of a normal closure and without a
    /// description, and stop.
    CloseNormal,
    /// Close the transport with the reason the client gave, and stop.
    EchoClose,
    /// Hand this to the registry, with the address of the connection.
    Authorize(AuthorizationMessage),
    /// Hand this to the registry, which routes it back to the connection.
    Send(WebSocketMessage),
    /// Write this to the transport.
    Write(WebSocketMessage),
    /// Open a peer connection.
    Negotiate(PeerRequest),
    /// Hand this to the attached peer connection.
    Answer(RtcAnswerConnectionMessage),
}

/// The registry of the control connections that have authorized: from the
/// id of a connection to its address, of type `H`.
pub struct WebSocket<H> {
    connections: HashMap<i64, H>,
}

impl<H> View for WebSocket<H> {
    type V = Map<i64, H>;

    closed spec fn view(&self) -> Map<i64, H> {
        self.connections@
    }
}

/// The error for a connection that is not registered: a failure of the
/// server, of status 500.
pub open spec fn not_registered() -> AppErrorView {
    AppErrorView {
        http_code: 500,
        json_code: 500,
        message: "Couldn't find WebSocket connection"@,
        kind: crate::error::AppErrorKind::Other,
    }
}

/// The session a connection gets when it authorizes with `token`: the
/// session of that token where one is stored; else a new session with the
/// id `new_id` and the token `fresh`.
pub open spec fn spec_authorize(before: DatabaseView, token: Seq<char>, new_id: i64, fresh: Seq<char>) -> Result<
    (DatabaseView, SessionView),
    AppErrorView,
> {
    if before.has_session_token(token) {
        Ok((before, before.session_with_token(token)))
    } else {
        Session::spec_create(before, new_id, fresh)
    }
}

/// Whether an authorization came out as [`spec_authorize`] says for this
/// new id and fresh token. On success the connection holds the session and
/// the registry is asked to register it and to send it the session's token;
/// on failure nothing changes.
pub open spec fn authorized_with<P>(
    new_id: i64,
    fresh: Seq<char>,
    message_id: i64,
    token: Seq<char>,
    store_before: DatabaseView,
    store_after: DatabaseView,
    before: WebSocketConnection<P>,
    after: WebSocketConnection<P>,
    result: Result<AuthorizationMessage, AppError>,
) -> bool {
    match result {
        Ok(authorization) => {
            &&& after.session_id is Some
            &&& spec_authorize(store_before, token, new_id, fresh) == Ok::<
                (DatabaseView, SessionView),
                AppErrorView,
            >((store_after, SessionView { id: after.session_id->0, token: authorization.token@ }))
            &&& authorization.id == message_id
            &&& authorization.connection_id == before.id
            &&& after == (WebSocketConnection { session_id: after.session_id, ..before })
        },
        Err(e) => {
            &&& spec_authorize(store_before, token, new_id, fresh) == Err::<
                (DatabaseView, SessionView),
                AppErrorView,
            >(e@)
            &&& store_after == store_before
            &&& after == before
        },
    }
}

/// The authorization a reaction asks for.
pub open spec fn authorization_of(result: Result<WebSocketReaction, AppError>) -> Result<
    AuthorizationMessage,
    AppError,
> {
    match result {
        Ok(WebSocketReaction::Authorize(authorization)) => Ok(authorization),
        Ok(_) => Err(arbitrary()),
        Err(e) => Err(e),
    }
}

/// The peer connection a reaction asks for.
pub open spec fn negotiation_of(result: Result<WebSocketReaction, AppError>) -> Result<
    PeerRequest,
    AppError,
> {
    match result {
        Ok(WebSocketReaction::Negotiate(request)) => Ok(request),
        Ok(_) => Err(arbitrary()),
        Err(e) => Err(e),
    }
}

/// The answer a reaction hands on.
pub open spec fn answer_of(result: Result<WebSocketReaction, AppError>) -> Result<
    RtcAnswerConnectionMessage,
    AppError,
> {
    match result {
        Ok(WebSocketReaction::Answer(answer)) => Ok(answer),
        Ok(_) => Err(arbitrary()),
        Err(e) => Err(e),
    }
}

/// The reply to a heartbeat: a `Response` without a body, with the
/// correlation id and the connection of the heartbeat.
pub open spec fn heartbeat_reply(message: WebSocketMessageView) -> WebSocketMessageView {
    WebSocketMessageView {
        id: message.id,
        connection_id: message.connection_id,
        opcode: Opcode::Response,
        payload: WebSocketMessagePayloadView::Empty,
    }
}

/// The error reply to the request `id` on the connection `connection_id`:
/// an `Error` message with the code of the error and the message a client
/// may see.
pub open spec fn spec_error_reply(id: i64, connection_id: i64, error: AppErrorView) -> WebSocketMessageView {
    WebSocketMessageView {
        id,
        connection_id,
        opcode: Opcode::Error,
        payload: WebSocketMessagePayloadView::Response {
            code: error.json_code,
            message: error.safe_message(),
        },
    }
}

/// Whether a control connection handled a message as it must.
///
/// A connection that has not authorized accepts nothing but `Authorize`:
/// anything else closes it with `NotAuthenticated` and changes nothing. An
/// `Authorize` without a token is a `BadRequest`; with one, the connection
/// gets the session of the token, or a new session. One that has
/// authorized answers a heartbeat and notes its time, joins a room on the
/// request for an offer, hands an answer on to its peer connection, and
/// refuses any other request as a `BadRequest`. It ignores a response, and
/// is closed by a second `Authorize` (`AlreadyAuthenticated`) or by an
/// `Error` (`Opcode`).
pub open spec fn handled<P>(
    before: WebSocketConnection<P>,
    after: WebSocketConnection<P>,
    message: WebSocketMessage,
    store_before: DatabaseView,
    store_after: DatabaseView,
    now: u64,
    updates_before: Seq<UserUpdateView>,
    updates_after: Seq<UserUpdateView>,
    result: Result<WebSocketReaction, AppError>,
) -> bool {
    &&& (before.session_id is None && message.opcode != Opcode::Authorize ==> {
        &&& result matches Ok(WebSocketReaction::Close(reason)) && reason
            == WebSocketCloseError::NotAuthenticated
        &&& untouched(
            before,
            after,
            store_before,
            store_after,
            updates_before,
            updates_after,
        )
    })
    &&& (before.session_id is None && message.opcode == Opcode::Authorize ==> {
        &&& updates_after == updates_before
        &&& result is Ok ==> result->Ok_0 is Authorize
        &&& message.payload@ is Authorize ==> exists|new_id: i64, fresh: Seq<char>|
            {
                &&& store_before.has_session_token(message.payload@->Authorize_token)
                    || Session::is_fresh_token(fresh)
                &&& #[trigger] authorized_with(
                    new_id,
                    fresh,
                    message.id,
                    message.payload@->Authorize_token,
                    store_before,
                    store_after,
                    before,
                    after,
                    authorization_of(result),
                )
            }
        &&& !(message.payload@ is Authorize) ==> {
            &&& result matches Err(e) && e@ == AppErrorTemplate::BadRequest(
                None,
            ).spec_error()
            &&& store_after == store_before
            &&& after == before
        }
    })
    &&& (before.session_id is Some && message.opcode == Opcode::HeartBeat ==> {
        &&& result matches Ok(WebSocketReaction::Send(reply)) && reply@ == heartbeat_reply(
            message@,
        )
        &&& after == (WebSocketConnection {
            last_heartbeat_at: now,
            ..before
        })
        &&& store_after == store_before
        &&& updates_after == updates_before
    })
    &&& (before.session_id is Some && message.opcode == Opcode::Request
        && message.payload@ is RequestGetRoomSdpOffer ==> {
        &&& result is Ok ==> result->Ok_0 is Negotiate
        &&& exists|new_room_id: i64, new_user_id: i64|
            #[trigger] joined_with(
                new_room_id,
                new_user_id,
                message.payload@->RequestGetRoomSdpOffer_room_name,
                message.payload@->RequestGetRoomSdpOffer_username,
                store_before,
                store_after,
                before,
                after,
                updates_before,
                updates_after,
                negotiation_of(result),
            )
    })
    &&& (before.session_id is Some && message.opcode == Opcode::Request
        && message.payload@ is RequestPostRoomSdpAnswer ==> {
        &&& untouched(
            before,
            after,
            store_before,
            store_after,
            updates_before,
            updates_after,
        )
        &&& if before.web_rtc_connection is Some {
            result matches Ok(WebSocketReaction::Answer(answer)) && answer.sdp@
                == message.payload@->RequestPostRoomSdpAnswer_sdp
        } else {
            result matches Err(e) && e@ == AppErrorTemplate::WebRtcOfferNotRequested(
                None,
            ).spec_error()
        }
    })
    &&& (before.session_id is Some && message.opcode == Opcode::Request && !(
    message.payload@ is RequestGetRoomSdpOffer) && !(
    message.payload@ is RequestPostRoomSdpAnswer) ==> {
        &&& result matches Err(e) && e@ == AppErrorTemplate::BadRequest(None).spec_error()
        &&& untouched(
            before,
            after,
            store_before,
            store_after,
            updates_before,
            updates_after,
        )
    })
    &&& (before.session_id is Some && (message.opcode == Opcode::Response
        || message.opcode == Opcode::Authorize || message.opcode == Opcode::Error) ==> {
        &&& result matches Ok(reaction) && match message.opcode {
            Opcode::Response => reaction is Ignore,
            Opcode::Authorize => reaction == WebSocketReaction::Close(
                WebSocketCloseError::AlreadyAuthenticated,
            ),
            _ => reaction == WebSocketReaction::Close(WebSocketCloseError::Opcode),
        }
        &&& untouched(
            before,
            after,
            store_before,
            store_after,
            updates_before,
            updates_after,
        )
    })
}

impl<H> WebSocket<H> {
    /// A registry without connections.
    pub fn new() -> (result: Self)
        ensures
            result@ == Map::<i64, H>::empty(),
    {
        WebSocket { connections: HashMap::new() }
    }

    /// The number of registered connections. A registry that stops while
    /// this is not zero only logs it.
    pub fn stopping(&self) -> (result: usize)
        ensures
            result == self@.len(),
    {
        self.connections.len()
    }

    /// The address of the connection `id`; an error of status 500 where it
    /// is not registered.
    pub fn get_connection(&self, id: &i64) -> (result: Result<&H, AppError>)
        ensures
            match result {
                Ok(address) => self@.contains_key(*id) && *address == self@[*id],
                Err(e) => !self@.contains_key(*id) && e@ == not_registered(),
            },
    {
        match self.connections.get(id) {
            Some(connection) => Ok(connection),
            None => Err(
                AppError::new(
                    500,
                    None,
                    String::from_str("Couldn't find WebSocket connection"),
                    None,
                ),
            ),
        }
    }

    /// Routes a message: the address of the connection it belongs to.
    pub fn handle(&self, message: &WebSocketMessage) -> (result: Result<&H, AppError>)
        ensures
            match result {
                Ok(address) => self@.contains_key(message.connection_id) && *address
                    == self@[message.connection_id],
                Err(e) => !self@.contains_key(message.connection_id) && e@ == not_registered(),
            },
    {
        self.get_connection(&message.connection_id)
    }

    /// Registers the connection of an authorization under its id, in place
    /// of any connection registered under it, and gives the message to send
    /// to it: a `Response` with the token of the session.
    pub fn handle_authorization(&mut self, message: AuthorizationMessage, address: H) -> (result:
        WebSocketMessage)
        ensures
            final(self)@ == old(self)@.insert(message.connection_id, address),
            result@ == (WebSocketMessageView {
                id: message.id,
                connection_id: message.connection_id,
                opcode: Opcode::Response,
                payload: WebSocketMessagePayloadView::ResponseSession { token: message.token@ },
            }),
    {
        self.connections.insert(message.connection_id, address);
        WebSocketMessage {
            id: message.id,
            connection_id: message.connection_id,
            opcode: Opcode::Response,
            payload: WebSocketMessagePayload::ResponseSession { token: message.token },
        }
    }

    /// Forgets the connection of a disconnection; nothing changes where it
    /// is not registered.
    pub fn handle_disconnection(&mut self, message: DisconnectionMessage)
        ensures
            final(self)@ == old(self)@.remove(message.connection_id),
    {
        self.connections.remove(&message.connection_id);
    }

    /// The error reply to the request `message_id` of a connection.
    pub fn error_reply(message_id: i64, connection_id: i64, error: &AppError) -> (result:
        WebSocketMessage)
        ensures
            result@ == spec_error_reply(message_id, connection_id, error@),
    {
        WebSocketMessage {
            id: message_id,
            connection_id,
            opcode: Opcode::Error,
            payload: WebSocketMessagePayload::Response {
                code: error.json_code,
                message: error.get_safe_message(),
            },
        }
    }

    /// Authorizes a connection with the session of `token`, or with a new
    /// session of the id `new_id` and the token `fresh` where no session
    /// has that token.
    pub fn authorize_with<P>(
        connection: &mut WebSocketConnection<P>,
        message_id: i64,
        token: String,
        store: &mut Database,
        new_id: i64,
        fresh: String,
    ) -> (result: Result<AuthorizationMessage, AppError>)
        ensures
            authorized_with(
                new_id,
                fresh@,
                message_id,
                token@,
                old(store)@,
                final(store)@,
                *old(connection),
                *final(connection),
                result,
            ),
    {
        let session = match Session::find_by_token(store, token.as_str()) {
            Ok(session) => session,
            Err(error) => {
                if error.http_code != 404 {
                    return Err(error);
                }
                match Session::create_with(store, new_id, fresh) {
                    Ok(session) => session,
                    Err(e) => {
                        return Err(e);
                    },
                }
            },
        };
        connection.session_id = Some(session.id);
        Ok(
            AuthorizationMessage {
                id: message_id,
                connection_id: connection.id,
                token: session.token,
            },
        )
    }

    /// Authorizes a connection with the session of the token in `message`,
    /// or with a new session where no session has that token. A message
    /// without such a token is a `BadRequest`. The id and the token of a
    /// new session come from the clock and a random source: the outcome is
    /// that of [`WebSocket::authorize_with`] for some id and, where a
    /// session is created, some fresh token.
    pub fn authorize<P>(
        connection: &mut WebSocketConnection<P>,
        message: WebSocketMessage,
        store: &mut Database,
        generator: &mut SnowflakeIdGenerator,
    ) -> (result: Result<AuthorizationMessage, AppError>)
        ensures
            message.payload@ is Authorize ==> exists|new_id: i64, fresh: Seq<char>|
                {
                    &&& old(store)@.has_session_token(message.payload@->Authorize_token)
                        || Session::is_fresh_token(fresh)
                    &&& #[trigger] authorized_with(
                        new_id,
                        fresh,
                        message.id,
                        message.payload@->Authorize_token,
                        old(store)@,
                        final(store)@,
                        *old(connection),
                        *final(connection),
                        result,
                    )
                },
            !(message.payload@ is Authorize) ==> {
                &&& result matches Err(e) && e@ == AppErrorTemplate::BadRequest(None).spec_error()
                &&& final(store)@ == old(store)@
                &&& *final(connection) == *old(connection)
            },
    {
        let ghost payload = message.payload@;
        let WebSocketMessagePayload::Authorize { token } = message.payload else {
            return Err(AppError::from_template(AppErrorTemplate::BadRequest(None)));
        };
        assert(payload->Authorize_token == token@);
        let known = store.find_session_by_token(token.as_str()).is_some();
        let new_id = if known {
            0
        } else {
            snowflake_generator::generate(generator)
        };
        let fresh = if known {
            String::from_str("")
        } else {
            Session::fresh_token(generator)
        };
        let ghost fresh_view = fresh@;
        let result = WebSocket::<H>::authorize_with(
            connection,
            message.id,
            token,
            store,
            new_id,
            fresh,
        );
        proof {
            assert(authorized_with(
                new_id,
                fresh_view,
                message.id,
                payload->Authorize_token,
                old(store)@,
                store@,
                *old(connection),
                *connection,
                result,
            ));
        }
        result
    }

    /// What a control connection does with a message of its client.
    ///
    /// A connection that has not authorized accepts nothing but
    /// `Authorize`: anything else closes it with `NotAuthenticated`. One
    /// that has authorized answers a heartbeat, dispatches a request,
    /// ignores a response, and is closed by a second `Authorize`
    /// (`AlreadyAuthenticated`) or by an `Error` (`Opcode`). The presence
    /// updates to broadcast are appended to `updates`.
    pub fn handle_message<P>(
        connection: &mut WebSocketConnection<P>,
        message: WebSocketMessage,
        store: &mut Database,
        generator: &mut SnowflakeIdGenerator,
        now: u64,
        updates: &mut Vec<UserUpdateMessage>,
    ) -> (result: Result<WebSocketReaction, AppError>)
        ensures
            handled(
                *old(connection),
                *final(connection),
                message,
                old(store)@,
                final(store)@,
                now,
                user_update_views(old(updates)@),
                user_update_views(final(updates)@),
                result,
            ),
    {
        let ghost payload = message.payload@;
        if connection.session_id.is_none() {
            if message.opcode != Opcode::Authorize {
                return Ok(WebSocketReaction::Close(WebSocketCloseError::NotAuthenticated));
            }
            return match WebSocket::<H>::authorize(connection, message, store, generator) {
                Ok(authorization) => Ok(WebSocketReaction::Authorize(authorization)),
                Err(e) => Err(e),
            };
        }
        match message.opcode {
            Opcode::HeartBeat => {
                connection.last_heartbeat_at = now;
                Ok(
                    WebSocketReaction::Send(
                        WebSocketMessage {
                            id: message.id,
                            connection_id: message.connection_id,
                            opcode: Opcode::Response,
                            payload: WebSocketMessagePayload::Empty,
                        },
                    ),
                )
            },
            Opcode::Request => {
                match message.payload {
                    WebSocketMessagePayload::RequestGetRoomSdpOffer { .. } => {
                        match get_sdp_offer(message, connection, store, generator, updates) {
                            Ok(request) => Ok(WebSocketReaction::Negotiate(request)),
                            Err(e) => Err(e),
                        }
                    },
                    WebSocketMessagePayload::RequestPostRoomSdpAnswer { .. } => {
                        match post_sdp_answer(message, connection) {
                            Ok(answer) => Ok(WebSocketReaction::Answer(answer)),
                            Err(e) => Err(e),
                        }
                    },
                    _ => Err(AppError::from_template(AppErrorTemplate::BadRequest(None))),
                }
            },
            Opcode::Response => Ok(WebSocketReaction::Ignore),
            Opcode::Authorize => Ok(
                WebSocketReaction::Close(WebSocketCloseError::AlreadyAuthenticated),
            ),
            Opcode::Error => Ok(WebSocketReaction::Close(WebSocketCloseError::Opcode)),
        }
    }
}

/// Authorizing with a token that no session has makes a session: where
/// the id and the token that were drawn are new, the store gains exactly
/// that session, whose token differs from every token stored before, and
/// the outcome is that session.
pub proof fn lemma_authorize_creates(
    before: DatabaseView,
    token: Seq<char>,
    new_id: i64,
    fresh: Seq<char>,
)
    requires
        !before.has_session_token(token),
        !before.has_session(new_id),
        !before.has_session_token(fresh),
    ensures
        spec_authorize(before, token, new_id, fresh) == Ok::<
            (DatabaseView, SessionView),
            AppErrorView,
        >(
            (
                DatabaseView {
                    sessions: before.sessions.push(SessionView { id: new_id, token: fresh }),
                    ..before
                },
                SessionView { id: new_id, token: fresh },
            ),
        ),
        forall|i: int| 0 <= i < before.sessions.len() ==> (#[trigger] before.sessions[i]).token != fresh,
{
    assert forall|i: int| 0 <= i < before.sessions.len() implies (
    #[trigger] before.sessions[i]).token != fresh by {
        assert(!before.session_token_at(i, fresh));
    }
}

/// Authorizing with the token of a stored session resumes that session: the
/// store stays as it is, whatever id and token were drawn.
pub proof fn lemma_authorize_resumes(
    before: DatabaseView,
    token: Seq<char>,
    new_id: i64,
    fresh: Seq<char>,
)
    requires
        before.has_session_token(token),
    ensures
        spec_authorize(before, token, new_id, fresh) == Ok::<
            (DatabaseView, SessionView),
            AppErrorView,
        >((before, before.session_with_token(token))),
        before.session_with_token(token).token == token,
{
    let i = choose|i: int| before.session_token_at(i, token);
    assert(before.session_token_at(i, token));
}

} // verus!
