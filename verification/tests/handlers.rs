use messenger::database::Database;
use messenger::services::message::handlers::{post_message, post_message_with_id};
use messenger::services::message::model::Message;
use messenger::services::room::handlers::{
    get_sdp_offer,
    get_sdp_offer_with_ids,
    leave,
    post_sdp_answer,
};
use messenger::services::room::model::Room;
use messenger::services::user::model::User;
use messenger::utils::snowflake_generator;
use messenger::web_rtc::connection::WebRtcConnection;
use messenger::web_rtc::message::{
    Opcode as PeerOpcode,
    UserUpdateMessage,
    WebRtcMessage,
    WebRtcMessagePayload,
};
use messenger::web_socket::connection::WebSocketConnection;
use messenger::web_socket::message::{Opcode, WebSocketMessage, WebSocketMessagePayload};
use messenger::Encoding;

fn connection(id: i64, session_id: Option<i64>) -> WebSocketConnection<u8> {
    WebSocketConnection {
        id,
        session_id,
        last_heartbeat_at: 0,
        encoding: Encoding::MessagePack,
        registered_room_id: None,
        registered_user_id: None,
        web_rtc_connection: None,
    }
}

fn peer(id: i64, room_id: i64, user_id: i64) -> WebRtcConnection {
    WebRtcConnection {
        id,
        last_heartbeat_at: 0,
        encoding: Encoding::MessagePack,
        registered_room_id: room_id,
        registered_user_id: user_id,
        is_closing_connection: false,
    }
}

fn join(
    store: &mut Database,
    connection: &mut WebSocketConnection<u8>,
    room: &str,
    user: &str,
    ids: (i64, i64),
    updates: &mut Vec<UserUpdateMessage>,
) -> Result<(i64, i64), u32> {
    match get_sdp_offer_with_ids(
        room.to_string(),
        user.to_string(),
        connection,
        store,
        ids.0,
        ids.1,
        updates,
    ) {
        Ok(request) => Ok((request.room_id, request.user_id)),
        Err(error) => Err(error.json_code),
    }
}

fn text(length: usize) -> String {
    let mut result = String::new();
    for _ in 0..length {
        result.push('x');
    }
    result
}

#[test]
fn first_join_creates_room_and_user() {
    let mut store = Database::new();
    let mut updates = Vec::new();
    let mut bob = connection(10, Some(7));
    let request = get_sdp_offer_with_ids(
        "abc".to_string(),
        "bob".to_string(),
        &mut bob,
        &mut store,
        1,
        100,
        &mut updates,
    )
    .unwrap();
    assert_eq!(request.connection_id, 10);
    assert_eq!(request.room_id, 1);
    assert_eq!(request.user_id, 100);
    assert!(!request.close_previous);
    assert_eq!(bob.registered_room_id, Some(1));
    assert_eq!(bob.registered_user_id, Some(100));
    let room = Room::find_by_name(&store, "abc").unwrap();
    assert_eq!(room.active_connection_ids, vec![10]);
    let user = User::find_by_username_and_room_id(&store, "bob", &1).unwrap();
    assert_eq!(user.session_id, 7);
    assert_eq!(user.active_connection_ids, vec![10]);
    assert_eq!(updates.len(), 1);
    assert_eq!(updates[0].room_id, 1);
    assert_eq!(updates[0].user.id, 100);
}

#[test]
fn names_of_a_wrong_length_change_nothing() {
    let mut store = Database::new();
    let mut updates = Vec::new();
    let mut bob = connection(10, Some(7));
    assert_eq!(join(&mut store, &mut bob, "ab", "bob", (1, 100), &mut updates), Err(3001));
    assert_eq!(join(&mut store, &mut bob, &text(33), "bob", (1, 100), &mut updates), Err(3002));
    assert_eq!(join(&mut store, &mut bob, "abc", "bo", (1, 100), &mut updates), Err(3003));
    assert_eq!(join(&mut store, &mut bob, "abc", &text(33), (1, 100), &mut updates), Err(3004));
    // the room name is checked first
    assert_eq!(join(&mut store, &mut bob, "ab", "bo", (1, 100), &mut updates), Err(3001));
    assert_eq!(Room::find_by_name(&store, "ab").unwrap_err().http_code, 404);
    assert_eq!(Room::find_by_name(&store, "abc").unwrap_err().http_code, 404);
    assert!(updates.is_empty());
    assert_eq!(bob.registered_room_id, None);
}

#[test]
fn join_needs_a_session() {
    let mut store = Database::new();
    let mut updates = Vec::new();
    let mut nobody = connection(10, None);
    assert_eq!(join(&mut store, &mut nobody, "abc", "bob", (1, 100), &mut updates), Err(401));
    assert_eq!(Room::find_by_name(&store, "abc").unwrap_err().http_code, 404);
}

#[test]
fn same_session_reclaims_the_name() {
    let mut store = Database::new();
    let mut updates = Vec::new();
    let mut first = connection(10, Some(7));
    let mut second = connection(11, Some(7));
    assert_eq!(join(&mut store, &mut first, "abc", "bob", (1, 100), &mut updates), Ok((1, 100)));
    assert_eq!(join(&mut store, &mut second, "abc", "bob", (2, 101), &mut updates), Ok((1, 100)));
    let user = User::find_by_username_and_room_id(&store, "bob", &1).unwrap();
    assert_eq!(user.id, 100);
    assert_eq!(user.active_connection_ids, vec![10, 11]);
    assert_eq!(Room::find_by_name(&store, "abc").unwrap().active_connection_ids, vec![10, 11]);
    // presence changed once
    assert_eq!(updates.len(), 1);
}

#[test]
fn other_session_finds_the_name_taken() {
    let mut store = Database::new();
    let mut updates = Vec::new();
    let mut bob = connection(10, Some(7));
    let mut eve = connection(11, Some(8));
    assert_eq!(join(&mut store, &mut bob, "abc", "bob", (1, 100), &mut updates), Ok((1, 100)));
    assert_eq!(join(&mut store, &mut eve, "abc", "bob", (2, 101), &mut updates), Err(4001));
    let user = User::find_by_username_and_room_id(&store, "bob", &1).unwrap();
    assert_eq!(user.id, 100);
    assert_eq!(user.session_id, 7);
    assert_eq!(user.active_connection_ids, vec![10]);
    assert_eq!(Room::find_by_name(&store, "abc").unwrap().active_connection_ids, vec![10]);
    assert_eq!(eve.registered_room_id, None);
    assert_eq!(eve.registered_user_id, None);
    // another name is free
    assert_eq!(join(&mut store, &mut eve, "abc", "eve", (2, 101), &mut updates), Ok((1, 101)));
}

#[test]
fn joining_again_leaves_first() {
    let mut store = Database::new();
    let mut updates = Vec::new();
    let mut bob = connection(10, Some(7));
    let mut amy = connection(11, Some(8));
    assert_eq!(join(&mut store, &mut bob, "abc", "bob", (1, 100), &mut updates), Ok((1, 100)));
    assert_eq!(join(&mut store, &mut amy, "abc", "amy", (2, 101), &mut updates), Ok((1, 101)));
    updates.clear();
    // bob moves to another room: offline in the first, online in the second
    assert_eq!(join(&mut store, &mut bob, "def", "bob", (3, 102), &mut updates), Ok((3, 102)));
    assert_eq!(updates.len(), 2);
    assert_eq!(updates[0].room_id, 1);
    assert!(updates[0].user.active_connection_ids.is_empty());
    assert_eq!(updates[1].room_id, 3);
    assert_eq!(updates[1].user.active_connection_ids, vec![10]);
    assert_eq!(Room::find_by_name(&store, "abc").unwrap().active_connection_ids, vec![11]);
    assert_eq!(bob.registered_room_id, Some(3));
    // amy leaves the first room, which is deleted with its users
    assert_eq!(join(&mut store, &mut amy, "def", "amy", (4, 103), &mut updates), Ok((3, 103)));
    assert_eq!(Room::find_by_name(&store, "abc").unwrap_err().http_code, 404);
    assert!(User::find_all_by_room_id(&store, &1).unwrap().is_empty());
}

#[test]
fn same_connection_joins_the_same_room_twice() {
    let mut store = Database::new();
    let mut updates = Vec::new();
    let mut bob = connection(10, Some(7));
    let mut amy = connection(11, Some(8));
    assert_eq!(join(&mut store, &mut bob, "abc", "bob", (1, 100), &mut updates), Ok((1, 100)));
    assert_eq!(join(&mut store, &mut amy, "abc", "amy", (2, 101), &mut updates), Ok((1, 101)));
    // the room stays, so does the user, and the identity is taken over
    assert_eq!(join(&mut store, &mut bob, "abc", "bob", (3, 102), &mut updates), Ok((1, 100)));
    let user = User::find_by_username_and_room_id(&store, "bob", &1).unwrap();
    assert_eq!(user.active_connection_ids, vec![10]);
    assert_eq!(Room::find_by_name(&store, "abc").unwrap().active_connection_ids, vec![11, 10]);
}

#[test]
fn join_reports_an_attached_peer() {
    let mut store = Database::new();
    let mut updates = Vec::new();
    let mut bob = connection(10, Some(7));
    bob.web_rtc_connection = Some(1);
    let request = get_sdp_offer_with_ids(
        "abc".to_string(),
        "bob".to_string(),
        &mut bob,
        &mut store,
        1,
        100,
        &mut updates,
    )
    .unwrap();
    assert!(request.close_previous);
    assert_eq!(bob.web_rtc_connection, Some(1));
}

#[test]
fn offer_request_draws_its_ids() {
    let mut store = Database::new();
    let mut generator = snowflake_generator::init();
    let mut updates = Vec::new();
    let mut bob = connection(10, Some(7));
    let message = WebSocketMessage {
        id: 1,
        connection_id: 10,
        opcode: Opcode::Request,
        payload: WebSocketMessagePayload::RequestGetRoomSdpOffer {
            room_name: "abc".to_string(),
            username: "bob".to_string(),
        },
    };
    let request = get_sdp_offer(message, &mut bob, &mut store, &mut generator, &mut updates)
        .unwrap();
    assert_eq!(Room::find_by_name(&store, "abc").unwrap().id, request.room_id);
    assert_ne!(request.room_id, request.user_id);
    let other = WebSocketMessage {
        id: 2,
        connection_id: 10,
        opcode: Opcode::Request,
        payload: WebSocketMessagePayload::Empty,
    };
    let error = get_sdp_offer(other, &mut bob, &mut store, &mut generator, &mut updates);
    assert_eq!(error.unwrap_err().json_code, 400);
}

#[test]
fn answer_before_offer_is_refused() {
    let bob = connection(10, Some(7));
    let answer = WebSocketMessage {
        id: 1,
        connection_id: 10,
        opcode: Opcode::Request,
        payload: WebSocketMessagePayload::RequestPostRoomSdpAnswer { sdp: "v=0".to_string() },
    };
    let error = post_sdp_answer(answer, &bob).unwrap_err();
    assert_eq!(error.json_code, 4002);
    assert_eq!(error.message, "WebRTC offer wasn't requested");

    let mut attached = connection(10, Some(7));
    attached.web_rtc_connection = Some(1);
    let answer = WebSocketMessage {
        id: 1,
        connection_id: 10,
        opcode: Opcode::Request,
        payload: WebSocketMessagePayload::RequestPostRoomSdpAnswer { sdp: "v=0".to_string() },
    };
    assert_eq!(post_sdp_answer(answer, &attached).unwrap().sdp, "v=0");
    let other = WebSocketMessage {
        id: 1,
        connection_id: 10,
        opcode: Opcode::Request,
        payload: WebSocketMessagePayload::Authorize { token: "t".to_string() },
    };
    assert_eq!(post_sdp_answer(other, &attached).unwrap_err().json_code, 400);
}

#[test]
fn leaving_twice_is_not_found() {
    let mut store = Database::new();
    let mut updates = Vec::new();
    let mut bob = connection(10, Some(7));
    assert_eq!(join(&mut store, &mut bob, "abc", "bob", (1, 100), &mut updates), Ok((1, 100)));
    updates.clear();
    assert!(leave(&mut store, 10, 1, 100, &mut updates).is_ok());
    assert_eq!(updates.len(), 1);
    assert_eq!(leave(&mut store, 10, 1, 100, &mut updates).unwrap_err().http_code, 404);
    assert_eq!(updates.len(), 1);
}

#[test]
fn posting_checks_the_content() {
    let mut store = Database::new();
    let author = peer(10, 1, 100);
    let empty = post_message_with_id("".to_string(), &author, &mut store, 1).unwrap_err();
    assert_eq!(empty.json_code, 3005);
    let long = post_message_with_id(text(1025), &author, &mut store, 1).unwrap_err();
    assert_eq!(long.json_code, 3006);
    assert!(Message::find_all_by_room_id(&store, &1).unwrap().is_empty());
    let update = post_message_with_id(text(1024), &author, &mut store, 1).unwrap();
    assert_eq!(update.room_id, 1);
    assert_eq!(update.message.id, 1);
    assert_eq!(update.message.author_id, 100);
    assert_eq!(Message::find_all_by_room_id(&store, &1).unwrap().len(), 1);
}

#[test]
fn post_request_draws_its_id() {
    let mut store = Database::new();
    let mut generator = snowflake_generator::init();
    let author = peer(10, 1, 100);
    let request = WebRtcMessage {
        id: 1,
        connection_id: 10,
        opcode: PeerOpcode::Request,
        payload: WebRtcMessagePayload::RequestPostMessage { content: "hello".to_string() },
    };
    let update = post_message(request, &author, &mut store, &mut generator).unwrap();
    assert_eq!(update.message.content, "hello");
    assert_eq!(Message::find_all_by_room_id(&store, &1).unwrap()[0].id, update.message.id);
    let other = WebRtcMessage {
        id: 1,
        connection_id: 10,
        opcode: PeerOpcode::Request,
        payload: WebRtcMessagePayload::Empty,
    };
    let error = post_message(other, &author, &mut store, &mut generator).unwrap_err();
    assert_eq!(error.json_code, 400);
}
