//! The requests of the control channel that join a room and negotiate the
//! peer session.

use snowflake::SnowflakeIdGenerator;
use vstd::prelude::*;

use crate::database::{Database, DatabaseView};
use crate::error::{AppError, AppErrorTemplate, AppErrorView};
use crate::services::room::model::{Room, RoomView};
use crate::services::user::model::User;
use crate::utils::snowflake_generator;
use crate::web_rtc::message::{
    user_update_views,
    RtcAnswerConnectionMessage,
    UserUpdateMessage,
    UserUpdateView,
};
use crate::web_socket::connection::WebSocketConnection;
use crate::web_socket::message::{
    WebSocketMessage,
    WebSocketMessagePayload,
    WebSocketMessagePayloadView,
};
use crate::Encoding;

verus! {

/// What is needed to open the peer connection of a control connection that
/// has joined a room.
#[derive(Clone, Copy, Debug)]
pub struct PeerRequest {
    pub connection_id: i64,
    pub encoding: Encoding,
    pub room_id: i64,
    pub user_id: i64,
    /// Whether a peer connection was attached already: it is to be told to
    /// close, the new one takes its place.
    pub close_previous: bool,
}

/// What leaving a room gives.
pub ghost struct LeaveModel {
    pub store: DatabaseView,
    pub updates: Seq<UserUpdateView>,
    pub result: Result<(), AppErrorView>,
}

/// What joining a room gives.
pub ghost struct JoinModel {
    pub store: DatabaseView,
    pub registered_room_id: Option<i64>,
    pub registered_user_id: Option<i64>,
    pub updates: Seq<UserUpdateView>,
    pub result: Result<(i64, i64), AppErrorView>,
}

/// The presence update of a user that has just gained a connection: the
/// user as it now stands, where that connection is its only one, so that
/// the user went from not connected to connected; nothing otherwise.
pub open spec fn online_update(user: crate::services::user::model::UserView) -> Seq<
    UserUpdateView,
> {
    if user.active_connection_ids.len() == 1 {
        seq![UserUpdateView { user, room_id: user.room_id }]
    } else {
        Seq::empty()
    }
}

/// The presence update of a user that has just lost a connection: the user
/// as it now stands, where it had connections `before` and has none now, so
/// that the user went from connected to not connected; nothing otherwise.
pub open spec fn offline_update(before: Seq<i64>, user: crate::services::user::model::UserView) -> Seq<
    UserUpdateView,
> {
    if before.len() > 0 && user.active_connection_ids.len() == 0 {
        seq![UserUpdateView { user, room_id: user.room_id }]
    } else {
        Seq::empty()
    }
}

/// A connection leaves its user, then its room. The user goes offline
/// where it was its last connection; the room is deleted with its users
/// where it was the room's last connection. The first refusal ends it.
pub open spec fn spec_leave(before: DatabaseView, connection_id: i64, room_id: i64, user_id: i64) -> LeaveModel {
    match User::spec_unregister_connection(before, connection_id, user_id) {
        Err(e) => LeaveModel { store: before, updates: Seq::empty(), result: Err(e) },
        Ok((left, user)) => match Room::spec_unregister_connection(left, connection_id, room_id) {
            Err(e) => LeaveModel {
                store: left,
                updates: offline_update(before.user(user_id).active_connection_ids, user),
                result: Err(e),
            },
            Ok(after) => LeaveModel {
                store: after,
                updates: offline_update(before.user(user_id).active_connection_ids, user),
                result: Ok(()),
            },
        },
    }
}

/// A connection registers to a room and to a user of it.
pub open spec fn spec_register(before: DatabaseView, connection_id: i64, room_id: i64, user_id: i64) -> JoinModel {
    match Room::spec_register_connection(before, connection_id, room_id) {
        Err(e) => JoinModel {
            store: before,
            registered_room_id: Some(room_id),
            registered_user_id: Some(user_id),
            updates: Seq::empty(),
            result: Err(e),
        },
        Ok(in_room) => match User::spec_register_connection(in_room, connection_id, user_id) {
            Err(e) => JoinModel {
                store: in_room,
                registered_room_id: Some(room_id),
                registered_user_id: Some(user_id),
                updates: Seq::empty(),
                result: Err(e),
            },
            Ok((after, user)) => JoinModel {
                store: after,
                registered_room_id: Some(room_id),
                registered_user_id: Some(user_id),
                updates: online_update(user),
                result: Ok((room_id, user_id)),
            },
        },
    }
}

/// A connection of the session `session_id`, registered to nothing, enters
/// the room `room_name` as `username`. The room is created under
/// `new_room_id` where no room has the name; the user is created under
/// `new_user_id` where the name is free in the room. A user of that name
/// that belongs to the same session is taken over; one of another session
/// is `UsernameTaken`.
pub open spec fn spec_enter(
    before: DatabaseView,
    connection_id: i64,
    session_id: i64,
    room_name: Seq<char>,
    username: Seq<char>,
    new_room_id: i64,
    new_user_id: i64,
) -> JoinModel {
    let found = before.has_room_named(room_name);
    let created = Room::spec_create(before, new_room_id, room_name);
    if !found && created is Err {
        JoinModel {
            store: before,
            registered_room_id: None,
            registered_user_id: None,
            updates: Seq::empty(),
            result: Err(created->Err_0),
        }
    } else {
        let with_room = if found {
            before
        } else {
            created->Ok_0.0
        };
        let room = if found {
            before.room_named(room_name)
        } else {
            created->Ok_0.1
        };
        match User::spec_create(with_room, new_user_id, username, room.id, session_id) {
            Ok((with_user, user)) => spec_register(with_user, connection_id, room.id, user.id),
            Err(e) => {
                let refused = JoinModel {
                    store: with_room,
                    registered_room_id: None,
                    registered_user_id: None,
                    updates: Seq::empty(),
                    result: Err(e),
                };
                if e.http_code != 409 {
                    refused
                } else if !with_room.has_user_named(username, room.id) {
                    JoinModel {
                        result: Err(AppErrorTemplate::NotFound(None).spec_error()),
                        ..refused
                    }
                } else if with_room.user_named(username, room.id).session_id != session_id {
                    JoinModel {
                        result: Err(AppErrorTemplate::UsernameTaken(None).spec_error()),
                        ..refused
                    }
                } else {
                    spec_register(
                        with_room,
                        connection_id,
                        room.id,
                        with_room.user_named(username, room.id).id,
                    )
                }
            },
        }
    }
}

/// The whole join. Names of a wrong length are refused before anything
/// changes. A connection that is registered leaves first, and is then
/// registered to nothing. A connection without a session is
/// `Unauthorized`. Then the connection enters the room.
pub open spec fn spec_join(
    before: DatabaseView,
    connection_id: i64,
    session_id: Option<i64>,
    registered_room_id: Option<i64>,
    registered_user_id: Option<i64>,
    room_name: Seq<char>,
    username: Seq<char>,
    new_room_id: i64,
    new_user_id: i64,
) -> JoinModel {
    let untouched = JoinModel {
        store: before,
        registered_room_id,
        registered_user_id,
        updates: Seq::empty(),
        result: Err(AppErrorTemplate::BadRequest(None).spec_error()),
    };
    if Room::spec_check_name_length(room_name) is Err {
        JoinModel { result: Err(Room::spec_check_name_length(room_name)->Err_0), ..untouched }
    } else if User::spec_check_username_length(username) is Err {
        JoinModel { result: Err(User::spec_check_username_length(username)->Err_0), ..untouched }
    } else {
        let registered = registered_room_id is Some && registered_user_id is Some;
        let left = if registered {
            spec_leave(before, connection_id, registered_room_id->0, registered_user_id->0)
        } else {
            LeaveModel { store: before, updates: Seq::empty(), result: Ok(()) }
        };
        if left.result is Err {
            JoinModel {
                store: left.store,
                updates: left.updates,
                result: Err(left.result->Err_0),
                ..untouched
            }
        } else if session_id is None {
            JoinModel {
                store: left.store,
                registered_room_id: if registered { None } else { registered_room_id },
                registered_user_id: if registered { None } else { registered_user_id },
                updates: left.updates,
                result: Err(AppErrorTemplate::Unauthorized(None).spec_error()),
            }
        } else {
            let entered = spec_enter(
                left.store,
                connection_id,
                session_id->0,
                room_name,
                username,
                new_room_id,
                new_user_id,
            );
            JoinModel {
                registered_room_id: if entered.registered_room_id is Some || registered {
                    entered.registered_room_id
                } else {
                    registered_room_id
                },
                registered_user_id: if entered.registered_user_id is Some || registered {
                    entered.registered_user_id
                } else {
                    registered_user_id
                },
                updates: left.updates + entered.updates,
                ..entered
            }
        }
    }
}

/// Whether a join came out as `model` says: the store, the presence
/// updates that were appended, what the connection is registered to, and
/// the result. Nothing else of the connection changes. A request to open
/// the peer connection names the room and the user that were joined, and
/// says whether a peer connection was attached before.
pub open spec fn joined<P>(
    model: JoinModel,
    before: WebSocketConnection<P>,
    after: WebSocketConnection<P>,
    store: DatabaseView,
    updates_before: Seq<UserUpdateView>,
    updates_after: Seq<UserUpdateView>,
    result: Result<PeerRequest, AppError>,
) -> bool {
    &&& store == model.store
    &&& updates_after == updates_before + model.updates
    &&& after.registered_room_id == model.registered_room_id
    &&& after.registered_user_id == model.registered_user_id
    &&& after.id == before.id
    &&& after.session_id == before.session_id
    &&& after.last_heartbeat_at == before.last_heartbeat_at
    &&& after.encoding == before.encoding
    &&& after.web_rtc_connection == before.web_rtc_connection
    &&& match result {
        Ok(request) => {
            &&& model.result == Ok::<(i64, i64), AppErrorView>((request.room_id, request.user_id))
            &&& request.connection_id == before.id
            &&& request.encoding == before.encoding
            &&& request.close_previous == (before.web_rtc_connection is Some)
        },
        Err(e) => model.result == Err::<(i64, i64), AppErrorView>(e@),
    }
}

/// Unregisters the connection `connection_id` from the user `user_id` and
/// from the room `room_id`. The presence updates to broadcast are appended
/// to `updates`.
pub fn leave(
    store: &mut Database,
    connection_id: i64,
    room_id: i64,
    user_id: i64,
    updates: &mut Vec<UserUpdateMessage>,
) -> (result: Result<(), AppError>)
    ensures
        final(store)@ == spec_leave(old(store)@, connection_id, room_id, user_id).store,
        user_update_views(final(updates)@) == user_update_views(old(updates)@) + spec_leave(
            old(store)@,
            connection_id,
            room_id,
            user_id,
        ).updates,
        match result {
            Ok(()) => spec_leave(old(store)@, connection_id, room_id, user_id).result is Ok,
            Err(e) => spec_leave(old(store)@, connection_id, room_id, user_id).result == Err::<
                (),
                AppErrorView,
            >(e@),
        },
{
    let ghost before = user_update_views(updates@);
    match User::unregister_connection(store, &connection_id, &user_id) {
        Err(e) => {
            assert(user_update_views(updates@) =~= before + Seq::empty());
            Err(e)
        },
        Ok(update) => {
            match update {
                Some(message) => {
                    let ghost view = message@;
                    updates.push(message);
                    assert(user_update_views(updates@) =~= before + seq![view]);
                },
                None => {
                    assert(user_update_views(updates@) =~= before + Seq::empty());
                },
            }
            Room::unregister_connection(store, &connection_id, &room_id)
        },
    }
}

/// Registers the connection `connection_id` to the room `room_id` and to
/// the user `user_id`. The presence update to broadcast, if any, is appended
/// to `updates`.
fn register(
    store: &mut Database,
    connection_id: i64,
    room_id: i64,
    user_id: i64,
    updates: &mut Vec<UserUpdateMessage>,
) -> (result: Result<(i64, i64), AppError>)
    ensures
        final(store)@ == spec_register(old(store)@, connection_id, room_id, user_id).store,
        user_update_views(final(updates)@) == user_update_views(old(updates)@) + spec_register(
            old(store)@,
            connection_id,
            room_id,
            user_id,
        ).updates,
        match result {
            Ok(ids) => spec_register(old(store)@, connection_id, room_id, user_id).result == Ok::<
                (i64, i64),
                AppErrorView,
            >(ids),
            Err(e) => spec_register(old(store)@, connection_id, room_id, user_id).result == Err::<
                (i64, i64),
                AppErrorView,
            >(e@),
        },
{
    let ghost before = user_update_views(updates@);
    proof {
        assert(before =~= before + Seq::empty());
    }
    if let Err(e) = Room::register_connection(store, connection_id, &room_id) {
        return Err(e);
    }
    match User::register_connection(store, connection_id, &user_id) {
        Err(e) => Err(e),
        Ok(update) => {
            if let Some(message) = update {
                let ghost view = message@;
                updates.push(message);
                assert(user_update_views(updates@) =~= before + seq![view]);
            }
            Ok((room_id, user_id))
        },
    }
}

/// Enters the room `room_name` as `username`, for a connection of the
/// session `session_id` that is registered to nothing.
fn enter(
    store: &mut Database,
    connection_id: i64,
    session_id: i64,
    room_name: String,
    username: String,
    new_room_id: i64,
    new_user_id: i64,
    updates: &mut Vec<UserUpdateMessage>,
) -> (result: (Option<(i64, i64)>, Result<(i64, i64), AppError>))
    ensures
        ({
            let model = spec_enter(
                old(store)@,
                connection_id,
                session_id,
                room_name@,
                username@,
                new_room_id,
                new_user_id,
            );
            &&& final(store)@ == model.store
            &&& user_update_views(final(updates)@) == user_update_views(old(updates)@)
                + model.updates
            &&& match result.0 {
                Some(ids) => model.registered_room_id == Some(ids.0) && model.registered_user_id
                    == Some(ids.1),
                None => model.registered_room_id is None && model.registered_user_id is None,
            }
            &&& match result.1 {
                Ok(ids) => model.result == Ok::<(i64, i64), AppErrorView>(ids),
                Err(e) => model.result == Err::<(i64, i64), AppErrorView>(e@),
            }
        }),
{
    let ghost before = user_update_views(updates@);
    proof {
        assert(before =~= before + Seq::empty());
    }
    let room = match Room::find_by_name(store, room_name.as_str()) {
        Ok(room) => room,
        Err(error) => {
            if error.http_code != 404 {
                return (None, Err(error));
            }
            match Room::create_with_id(store, new_room_id, room_name) {
                Ok(room) => room,
                Err(e) => {
                    return (None, Err(e));
                },
            }
        },
    };
    let user_id = match User::create_with_id(
        store,
        new_user_id,
        username.clone(),
        room.id,
        session_id,
    ) {
        Ok(user) => user.id,
        Err(error) => {
            if error.http_code != 409 {
                return (None, Err(error));
            }
            let user = match User::find_by_username_and_room_id(
                store,
                username.as_str(),
                &room.id,
            ) {
                Ok(user) => user,
                Err(e) => {
                    return (None, Err(e));
                },
            };
            if user.session_id != session_id {
                return (
                    None,
                    Err(AppError::from_template(AppErrorTemplate::UsernameTaken(None))),
                );
            }
            user.id
        },
    };
    let result = register(store, connection_id, room.id, user_id, updates);
    (Some((room.id, user_id)), result)
}

/// Joins the connection to the room `room_name` as `username`, with the
/// ids a new room and a new user would get. The presence updates to
/// broadcast are appended to `updates`.
pub fn get_sdp_offer_with_ids<P>(
    room_name: String,
    username: String,
    connection: &mut WebSocketConnection<P>,
    store: &mut Database,
    new_room_id: i64,
    new_user_id: i64,
    updates: &mut Vec<UserUpdateMessage>,
) -> (result: Result<PeerRequest, AppError>)
    ensures
        joined(
            spec_join(
                old(store)@,
                old(connection).id,
                old(connection).session_id,
                old(connection).registered_room_id,
                old(connection).registered_user_id,
                room_name@,
                username@,
                new_room_id,
                new_user_id,
            ),
            *old(connection),
            *final(connection),
            final(store)@,
            user_update_views(old(updates)@),
            user_update_views(final(updates)@),
            result,
        ),
{
    let ghost before = user_update_views(updates@);
    proof {
        assert(before =~= before + Seq::empty());
    }
    if let Err(e) = Room::check_name_length(room_name.as_str()) {
        return Err(e);
    }
    if let Err(e) = User::check_username_length(username.as_str()) {
        return Err(e);
    }
    if let (Some(room_id), Some(user_id)) = (
        connection.registered_room_id,
        connection.registered_user_id,
    ) {
        if let Err(e) = leave(store, connection.id, room_id, user_id, updates) {
            return Err(e);
        }
        connection.registered_room_id = None;
        connection.registered_user_id = None;
    }
    let ghost left = user_update_views(updates@);
    let ghost middle = store@;
    let Some(session_id) = connection.session_id else {
        return Err(AppError::from_template(AppErrorTemplate::Unauthorized(None)));
    };
    let (registered, result) = enter(
        store,
        connection.id,
        session_id,
        room_name,
        username,
        new_room_id,
        new_user_id,
        updates,
    );
    proof {
        let entered = spec_enter(
            middle,
            connection.id,
            session_id,
            room_name@,
            username@,
            new_room_id,
            new_user_id,
        );
        let departed = if old(connection).registered_room_id is Some && old(
            connection,
        ).registered_user_id is Some {
            spec_leave(
                old(store)@,
                connection.id,
                old(connection).registered_room_id->0,
                old(connection).registered_user_id->0,
            ).updates
        } else {
            Seq::empty()
        };
        assert(left =~= before + departed);
        assert((before + departed) + entered.updates =~= before + (departed + entered.updates));
    }
    if let Some(ids) = registered {
        connection.registered_room_id = Some(ids.0);
        connection.registered_user_id = Some(ids.1);
    }
    match result {
        Ok(ids) => Ok(
            PeerRequest {
                connection_id: connection.id,
                encoding: connection.encoding,
                room_id: ids.0,
                user_id: ids.1,
                close_previous: connection.web_rtc_connection.is_some(),
            },
        ),
        Err(e) => Err(e),
    }
}

/// Whether a join came out as the model says for these ids of a new room
/// and a new user.
pub open spec fn joined_with<P>(
    new_room_id: i64,
    new_user_id: i64,
    room_name: Seq<char>,
    username: Seq<char>,
    store_before: DatabaseView,
    store_after: DatabaseView,
    before: WebSocketConnection<P>,
    after: WebSocketConnection<P>,
    updates_before: Seq<UserUpdateView>,
    updates_after: Seq<UserUpdateView>,
    result: Result<PeerRequest, AppError>,
) -> bool {
    joined(
        spec_join(
            store_before,
            before.id,
            before.session_id,
            before.registered_room_id,
            before.registered_user_id,
            room_name,
            username,
            new_room_id,
            new_user_id,
        ),
        before,
        after,
        store_after,
        updates_before,
        updates_after,
        result,
    )
}

/// Whether nothing changed: the store, the connection, the updates.
pub open spec fn untouched<P>(
    before: WebSocketConnection<P>,
    after: WebSocketConnection<P>,
    store_before: DatabaseView,
    store_after: DatabaseView,
    updates_before: Seq<UserUpdateView>,
    updates_after: Seq<UserUpdateView>,
) -> bool {
    &&& store_after == store_before
    &&& updates_after == updates_before
    &&& after == before
}

/// Handles the request for an offer: joins the connection to the room and
/// says what peer connection to open. A message of another kind is a
/// `BadRequest`. The ids of a new room and a new user come from the clock:
/// the outcome is that of [`get_sdp_offer_with_ids`] for some ids. Names of
/// a wrong length are refused before an id is drawn.
pub fn get_sdp_offer<P>(
    message: WebSocketMessage,
    connection: &mut WebSocketConnection<P>,
    store: &mut Database,
    generator: &mut SnowflakeIdGenerator,
    updates: &mut Vec<UserUpdateMessage>,
) -> (result: Result<PeerRequest, AppError>)
    ensures
        message.payload@ is RequestGetRoomSdpOffer ==> exists|new_room_id: i64, new_user_id: i64|
            #[trigger] joined_with(
                new_room_id,
                new_user_id,
                message.payload@->RequestGetRoomSdpOffer_room_name,
                message.payload@->RequestGetRoomSdpOffer_username,
                old(store)@,
                final(store)@,
                *old(connection),
                *final(connection),
                user_update_views(old(updates)@),
                user_update_views(final(updates)@),
                result,
            ),
        !(message.payload@ is RequestGetRoomSdpOffer) ==> {
            &&& result matches Err(e) && e@ == AppErrorTemplate::BadRequest(None).spec_error()
            &&& untouched(
                *old(connection),
                *final(connection),
                old(store)@,
                final(store)@,
                user_update_views(old(updates)@),
                user_update_views(final(updates)@),
            )
        },
{
    let ghost payload = message.payload@;
    let WebSocketMessagePayload::RequestGetRoomSdpOffer { room_name, username } =
        message.payload else {
        return Err(AppError::from_template(AppErrorTemplate::BadRequest(None)));
    };
    assert(payload->RequestGetRoomSdpOffer_room_name == room_name@);
    assert(payload->RequestGetRoomSdpOffer_username == username@);
    let ghost before = user_update_views(updates@);
    if let Err(e) = Room::check_name_length(room_name.as_str()) {
        proof {
            assert(before =~= before + Seq::empty());
            assert(joined_with(
                0,
                0,
                room_name@,
                username@,
                store@,
                store@,
                *connection,
                *connection,
                before,
                before,
                Err::<PeerRequest, AppError>(e),
            ));

        }
        return Err(e);
    }
    if let Err(e) = User::check_username_length(username.as_str()) {
        proof {
            assert(before =~= before + Seq::empty());
            assert(joined_with(
                0,
                0,
                room_name@,
                username@,
                store@,
                store@,
                *connection,
                *connection,
                before,
                before,
                Err::<PeerRequest, AppError>(e),
            ));
        }
        return Err(e);
    }
    let new_room_id = snowflake_generator::generate(generator);
    let new_user_id = snowflake_generator::generate(generator);
    let ghost name = room_name@;
    let ghost user = username@;
    let result = get_sdp_offer_with_ids(
        room_name,
        username,
        connection,
        store,
        new_room_id,
        new_user_id,
        updates,
    );
    proof {
        assert(joined_with(
            new_room_id,
            new_user_id,
            name,
            user,
            old(store)@,
            store@,
            *old(connection),
            *connection,
            user_update_views(old(updates)@),
            user_update_views(updates@),
            result,
        ));
    }
    result
}

/// Handles the answer of the client: it is handed on to the peer
/// connection. A message of another kind is a `BadRequest`; an answer
/// before any offer was asked for is `WebRtcOfferNotRequested`.
pub fn post_sdp_answer<P>(message: WebSocketMessage, connection: &WebSocketConnection<P>) -> (result:
    Result<RtcAnswerConnectionMessage, AppError>)
    ensures
        match message.payload@ {
            WebSocketMessagePayloadView::RequestPostRoomSdpAnswer { sdp } => {
                if connection.web_rtc_connection is Some {
                    result matches Ok(answer) && answer.sdp@ == sdp
                } else {
                    result matches Err(e) && e@ == AppErrorTemplate::WebRtcOfferNotRequested(
                        None,
                    ).spec_error()
                }
            },
            _ => result matches Err(e) && e@ == AppErrorTemplate::BadRequest(None).spec_error(),
        },
{
    let WebSocketMessagePayload::RequestPostRoomSdpAnswer { sdp } = message.payload else {
        return Err(AppError::from_template(AppErrorTemplate::BadRequest(None)));
    };
    if connection.web_rtc_connection.is_none() {
        return Err(AppError::from_template(AppErrorTemplate::WebRtcOfferNotRequested(None)));
    }
    Ok(RtcAnswerConnectionMessage { sdp })
}

/// A join under a room name shorter than 3 or longer than 32 characters
/// is refused with the code of the length error, whatever else is given,
/// and changes nothing: no room is created, no user, and the connection
/// stays registered to what it was.
pub proof fn lemma_join_refuses_room_name(
    before: DatabaseView,
    connection_id: i64,
    session_id: Option<i64>,
    registered_room_id: Option<i64>,
    registered_user_id: Option<i64>,
    room_name: Seq<char>,
    username: Seq<char>,
    new_room_id: i64,
    new_user_id: i64,
)
    requires
        room_name.len() < 3 || room_name.len() > 32,
    ensures
        ({
            let model = spec_join(
                before,
                connection_id,
                session_id,
                registered_room_id,
                registered_user_id,
                room_name,
                username,
                new_room_id,
                new_user_id,
            );
            &&& model.store == before
            &&& model.updates == Seq::<UserUpdateView>::empty()
            &&& model.registered_room_id == registered_room_id
            &&& model.registered_user_id == registered_user_id
            &&& model.result is Err
            &&& model.result->Err_0.http_code == 400
            &&& model.result->Err_0.json_code == if room_name.len() < 3 {
                3001u32
            } else {
                3002u32
            }
        }),
{
}

/// Entering a room under a name that a user of the same session holds
/// there takes that user over: the join succeeds with the room and that
/// user, and nothing is created.
pub proof fn lemma_enter_reclaims(
    before: DatabaseView,
    connection_id: i64,
    session_id: i64,
    room_name: Seq<char>,
    username: Seq<char>,
    new_room_id: i64,
    new_user_id: i64,
)
    requires
        before.wf(),
        before.has_room_named(room_name),
        before.has_user_named(username, before.room_named(room_name).id),
        before.user_named(username, before.room_named(room_name).id).session_id == session_id,
    ensures
        ({
            let room = before.room_named(room_name);
            let user = before.user_named(username, room.id);
            let model = spec_enter(
                before,
                connection_id,
                session_id,
                room_name,
                username,
                new_room_id,
                new_user_id,
            );
            &&& model.result == Ok::<(i64, i64), AppErrorView>((room.id, user.id))
            &&& model.registered_room_id == Some(room.id)
            &&& model.registered_user_id == Some(user.id)
            &&& model.store.rooms.len() == before.rooms.len()
            &&& model.store.users.len() == before.users.len()
        }),
{
    let room = before.room_named(room_name);
    let user = before.user_named(username, room.id);
    let i = choose|i: int| before.room_named_at(i, room_name);
    assert(before.room_at(i, room.id));
    let k = choose|k: int| before.user_named_at(k, username, room.id);
    assert(before.user_at(k, user.id));
    let in_room = Room::spec_register_connection(before, connection_id, room.id)->Ok_0;
    assert(in_room.user_at(k, user.id));
}

/// Entering a room under a name that a user of another session holds
/// there fails with `UsernameTaken` and changes nothing: the user that
/// holds the name is as it was.
pub proof fn lemma_enter_username_taken(
    before: DatabaseView,
    connection_id: i64,
    session_id: i64,
    room_name: Seq<char>,
    username: Seq<char>,
    new_room_id: i64,
    new_user_id: i64,
)
    requires
        before.has_room_named(room_name),
        before.has_user_named(username, before.room_named(room_name).id),
        before.user_named(username, before.room_named(room_name).id).session_id != session_id,
    ensures
        ({
            let model = spec_enter(
                before,
                connection_id,
                session_id,
                room_name,
                username,
                new_room_id,
                new_user_id,
            );
            &&& model.result == Err::<(i64, i64), AppErrorView>(
                AppErrorTemplate::UsernameTaken(None).spec_error(),
            )
            &&& model.result->Err_0.json_code == 4001
            &&& model.store == before
            &&& model.updates == Seq::<UserUpdateView>::empty()
            &&& model.registered_room_id is None
            &&& model.registered_user_id is None
        }),
{
}

/// What registering a connection leaves in the store: the room and the
/// user it was registered to stand where they stood, under their id and
/// their name, with the connection added; the keys stay unique.
proof fn lemma_registered(before: DatabaseView, connection_id: i64, i: int, k: int)
    requires
        before.wf(),
        0 <= i < before.rooms.len(),
        0 <= k < before.users.len(),
    ensures
        ({
            let model = spec_register(
                before,
                connection_id,
                before.rooms[i].id,
                before.users[k].id,
            );
            &&& model.result == Ok::<(i64, i64), AppErrorView>(
                (before.rooms[i].id, before.users[k].id),
            )
            &&& model.store.wf()
            &&& model.store.rooms.len() == before.rooms.len()
            &&& model.store.users.len() == before.users.len()
            &&& model.store.rooms[i].id == before.rooms[i].id
            &&& model.store.rooms[i].name == before.rooms[i].name
            &&& model.store.users[k].id == before.users[k].id
            &&& model.store.users[k].username == before.users[k].username
            &&& model.store.users[k].room_id == before.users[k].room_id
            &&& model.store.users[k].session_id == before.users[k].session_id
        }),
{
    let room_id = before.rooms[i].id;
    let user_id = before.users[k].id;
    before.lemma_room_at(i);
    before.lemma_set_room_connections_wf(
        room_id,
        before.room(room_id).active_connection_ids.push(connection_id),
    );
    let in_room = Room::spec_register_connection(before, connection_id, room_id)->Ok_0;
    assert(in_room == before.set_room_connections(
        room_id,
        before.room(room_id).active_connection_ids.push(connection_id),
    )->Ok_0);
    in_room.lemma_user_at(k);
    in_room.lemma_set_user_connections_wf(
        user_id,
        in_room.user(user_id).active_connection_ids.push(connection_id),
    );
    let after = User::spec_register_connection(in_room, connection_id, user_id)->Ok_0.0;
    assert(after == in_room.set_user_connections(
        user_id,
        in_room.user(user_id).active_connection_ids.push(connection_id),
    )->Ok_0);
}

/// Two joins of the same room under the same name. After a connection has
/// entered a room under a name, a second connection that enters the same
/// room under the same name gets the same room and the same user where it
/// belongs to the same session; where it belongs to another session it
/// fails with `UsernameTaken`, and the store, with the user that holds the
/// name, is as the first join left it.
pub proof fn lemma_enter_twice(
    before: DatabaseView,
    first_connection: i64,
    first_session: i64,
    second_connection: i64,
    second_session: i64,
    room_name: Seq<char>,
    username: Seq<char>,
    first_room_id: i64,
    first_user_id: i64,
    second_room_id: i64,
    second_user_id: i64,
)
    requires
        before.wf(),
        spec_enter(
            before,
            first_connection,
            first_session,
            room_name,
            username,
            first_room_id,
            first_user_id,
        ).result is Ok,
    ensures
        ({
            let first = spec_enter(
                before,
                first_connection,
                first_session,
                room_name,
                username,
                first_room_id,
                first_user_id,
            );
            let second = spec_enter(
                first.store,
                second_connection,
                second_session,
                room_name,
                username,
                second_room_id,
                second_user_id,
            );
            &&& first.store.wf()
            &&& second_session == first_session ==> second.result == first.result
            &&& second_session != first_session ==> second.result == Err::<
                (i64, i64),
                AppErrorView,
            >(AppErrorTemplate::UsernameTaken(None).spec_error()) && second.store == first.store
        }),
{
    let first = spec_enter(
        before,
        first_connection,
        first_session,
        room_name,
        username,
        first_room_id,
        first_user_id,
    );
    let found = before.has_room_named(room_name);
    let created = Room::spec_create(before, first_room_id, room_name);
    let with_room = if found {
        before
    } else {
        created->Ok_0.0
    };
    let room = if found {
        before.room_named(room_name)
    } else {
        created->Ok_0.1
    };
    // Where the room stands.
    let i = if found {
        choose|i: int| before.room_named_at(i, room_name)
    } else {
        before.rooms.len() as int
    };
    if !found {
        before.lemma_insert_room_wf(room);
    }
    assert(with_room.wf());
    assert(0 <= i < with_room.rooms.len() && with_room.rooms[i] == room);
    assert(room.name == room_name);
    // Where the user stands.
    let made = User::spec_create(with_room, first_user_id, username, room.id, first_session);
    let with_user = if made is Ok {
        made->Ok_0.0
    } else {
        with_room
    };
    let k = if made is Ok {
        with_room.users.len() as int
    } else {
        choose|k: int| with_room.user_named_at(k, username, room.id)
    };
    if made is Ok {
        with_room.lemma_insert_user_wf(made->Ok_0.1);
    }
    assert(with_user.wf());
    assert(0 <= k < with_user.users.len());
    assert(with_user.users[k].username == username);
    assert(with_user.users[k].room_id == room.id);
    assert(with_user.users[k].session_id == first_session);
    assert(0 <= i < with_user.rooms.len() && with_user.rooms[i] == room);
    assert(first == spec_register(with_user, first_connection, room.id, with_user.users[k].id));
    lemma_registered(with_user, first_connection, i, k);
    let after = first.store;
    after.lemma_room_at(i);
    after.lemma_user_at(k);
    if second_session == first_session {
        lemma_enter_reclaims(
            after,
            second_connection,
            second_session,
            room_name,
            username,
            second_room_id,
            second_user_id,
        );
    } else {
        lemma_enter_username_taken(
            after,
            second_connection,
            second_session,
            room_name,
            username,
            second_room_id,
            second_user_id,
        );
    }
}

/// The first join of a room. A connection of a session that is registered
/// to nothing asks to join a room that is not stored, under names of the
/// right length, and the ids that were drawn are new. Then the join
/// succeeds: the store gains exactly one room, of that name, and exactly
/// one user, of that name, in that room and of that session; the
/// connection is registered to both, as their only connection; and the
/// user's going online is the one update to broadcast.
pub proof fn lemma_first_join(
    before: DatabaseView,
    connection_id: i64,
    session_id: i64,
    room_name: Seq<char>,
    username: Seq<char>,
    new_room_id: i64,
    new_user_id: i64,
)
    requires
        before.wf(),
        3 <= room_name.len() <= 32,
        3 <= username.len() <= 32,
        !before.has_room_named(room_name),
        !before.has_room(new_room_id),
        !before.has_user(new_user_id),
        !before.has_user_named(username, new_room_id),
    ensures
        ({
            let model = spec_join(
                before,
                connection_id,
                Some(session_id),
                None,
                None,
                room_name,
                username,
                new_room_id,
                new_user_id,
            );
            let room = RoomView {
                id: new_room_id,
                name: room_name,
                active_connection_ids: seq![connection_id],
            };
            let user = crate::services::user::model::UserView {
                id: new_user_id,
                username,
                room_id: new_room_id,
                session_id,
                active_connection_ids: seq![connection_id],
            };
            &&& model.result == Ok::<(i64, i64), AppErrorView>((new_room_id, new_user_id))
            &&& model.registered_room_id == Some(new_room_id)
            &&& model.registered_user_id == Some(new_user_id)
            &&& model.store.rooms == before.rooms.push(room)
            &&& model.store.users == before.users.push(user)
            &&& model.store.sessions == before.sessions
            &&& model.store.messages == before.messages
            &&& model.store.wf()
            &&& model.updates == seq![UserUpdateView { user, room_id: new_room_id }]
        }),
{
    let created = Room::spec_create(before, new_room_id, room_name);
    let empty_room = RoomView {
        id: new_room_id,
        name: room_name,
        active_connection_ids: Seq::empty(),
    };
    assert(created is Ok);
    let with_room = created->Ok_0.0;
    before.lemma_insert_room_wf(empty_room);
    let i = before.rooms.len() as int;
    assert(with_room.rooms[i] == empty_room);
    assert(!with_room.has_user_named(username, new_room_id)) by {
        assert forall|k: int| !with_room.user_named_at(k, username, new_room_id) by {
            assert(!before.user_named_at(k, username, new_room_id));
        }
    }
    assert(!with_room.has_user(new_user_id)) by {
        assert forall|k: int| !with_room.user_at(k, new_user_id) by {
            assert(!before.user_at(k, new_user_id));
        }
    }
    let made = User::spec_create(with_room, new_user_id, username, new_room_id, session_id);
    assert(made is Ok);
    let with_user = made->Ok_0.0;
    let empty_user = made->Ok_0.1;
    with_room.lemma_insert_user_wf(empty_user);
    let k = with_room.users.len() as int;
    assert(with_user.users[k] == empty_user);
    assert(with_user.rooms[i] == empty_room);
    lemma_registered(with_user, connection_id, i, k);
    with_user.lemma_room_at(i);
    let in_room = Room::spec_register_connection(with_user, connection_id, new_room_id)->Ok_0;
    in_room.lemma_user_at(k);
    let model = spec_register(with_user, connection_id, new_room_id, new_user_id);
    assert(model.store.rooms =~= before.rooms.push(
        RoomView { active_connection_ids: seq![connection_id], ..empty_room },
    )) by {
        assert(Seq::<i64>::empty().push(connection_id) =~= seq![connection_id]);
    }
    assert(model.store.users =~= before.users.push(
        crate::services::user::model::UserView {
            active_connection_ids: seq![connection_id],
            ..empty_user
        },
    )) by {
        assert(Seq::<i64>::empty().push(connection_id) =~= seq![connection_id]);
    }
    assert(Seq::<UserUpdateView>::empty() + model.updates =~= model.updates);
}

} // verus!
