use messenger::constants::{WEB_RTC_CLIENT_TIMEOUT, WEB_SOCKET_CLIENT_TIMEOUT};
use messenger::database::Database;
use messenger::error::{AppError, AppErrorTemplate, WebSocketCloseError};
use messenger::services::message::model::Message;
use messenger::services::room::handlers::PeerRequest;
use messenger::services::room::model::Room;
use messenger::services::session::model::Session;
use messenger::services::user::model::{User, UserStatus};
use messenger::utils::snowflake_generator;
use messenger::web_rtc::actor::{WebRtc, WebRtcReaction};
use messenger::web_rtc::connection::{Started, WebRtcAction, WebRtcConnection, WebRtcEvent};
use messenger::web_rtc::message::{
    DisconnectionMessage as PeerDisconnection,
    MessageUpdateMessage,
    Opcode as PeerOpcode,
    RegistrationMessage,
    UserUpdateMessage,
    WebRtcMessage,
    WebRtcMessagePayload,
};
use messenger::web_socket::actor::{WebSocket, WebSocketReaction};
use messenger::web_socket::connection::{Frame, WebSocketConnection};
use messenger::web_socket::message::{
    AuthorizationMessage,
    DisconnectionMessage,
    Opcode,
    WebSocketMessage,
    WebSocketMessagePayload,
};
use messenger::Encoding;
use snowflake::SnowflakeIdGenerator;

struct World {
    store: Database,
    generator: SnowflakeIdGenerator,
    updates: Vec<UserUpdateMessage>,
}

fn world() -> World {
    World { store: Database::new(), generator: snowflake_generator::init(), updates: Vec::new() }
}

fn accept(world: &mut World) -> WebSocketConnection<u8> {
    WebSocketConnection::new(Encoding::MessagePack, &mut world.generator, 1000)
}

fn message(id: i64, opcode: Opcode, payload: WebSocketMessagePayload) -> WebSocketMessage {
    WebSocketMessage { id, connection_id: 0, opcode, payload }
}

fn handle(
    world: &mut World,
    connection: &mut WebSocketConnection<u8>,
    message: WebSocketMessage,
    now: u64,
) -> WebSocketReaction {
    connection.handle_message(
        message,
        &mut world.store,
        &mut world.generator,
        now,
        &mut world.updates,
    )
}

fn authorize(world: &mut World, connection: &mut WebSocketConnection<u8>, token: &str) -> String {
    let request =
        message(1, Opcode::Authorize, WebSocketMessagePayload::Authorize { token: token.to_string() });
    match handle(world, connection, request, 1000) {
        WebSocketReaction::Authorize(authorization) => authorization.token,
        other => panic!("unexpected reaction {:?}", other),
    }
}

fn error_of(reaction: WebSocketReaction) -> (i64, u32, String) {
    match reaction {
        WebSocketReaction::Write(WebSocketMessage {
            id,
            opcode: Opcode::Error,
            payload: WebSocketMessagePayload::Response { code, message },
            ..
        }) => (id, code, message),
        other => panic!("unexpected reaction {:?}", other),
    }
}

#[test]
fn new_connection_is_not_authorized() {
    let mut world = world();
    let first = accept(&mut world);
    let second = accept(&mut world);
    assert_ne!(first.id, second.id);
    assert_eq!(first.session_id, None);
    assert_eq!(first.last_heartbeat_at, 1000);
    assert_eq!(first.registered_room_id, None);
    assert_eq!(first.registered_user_id, None);
    assert_eq!(first.web_rtc_connection, None);
}

#[test]
fn unauthorized_connection_accepts_only_authorize() {
    let mut world = world();
    let mut connection = accept(&mut world);
    for opcode in [Opcode::HeartBeat, Opcode::Request, Opcode::Response, Opcode::Error] {
        let reaction =
            handle(&mut world, &mut connection, message(1, opcode, WebSocketMessagePayload::Empty), 5);
        assert!(matches!(reaction, WebSocketReaction::Close(WebSocketCloseError::NotAuthenticated)));
    }
    assert_eq!(connection.session_id, None);
    assert_eq!(connection.last_heartbeat_at, 1000);
    // an authorize without a token is a bad request
    let reaction = handle(
        &mut world,
        &mut connection,
        message(3, Opcode::Authorize, WebSocketMessagePayload::Empty),
        5,
    );
    assert_eq!(error_of(reaction), (3, 400, "Bad request".to_string()));
    assert_eq!(connection.session_id, None);
}

#[test]
fn authorize_creates_then_resumes_the_session() {
    let mut world = world();
    let mut first = accept(&mut world);
    let request = message(9, Opcode::Authorize, WebSocketMessagePayload::Authorize { token: "".to_string() });
    let authorization = match handle(&mut world, &mut first, request, 1000) {
        WebSocketReaction::Authorize(authorization) => authorization,
        other => panic!("unexpected reaction {:?}", other),
    };
    assert_eq!(authorization.id, 9);
    assert_eq!(authorization.connection_id, first.id);
    assert!(authorization.token.chars().count() > 45);
    let session_id = first.session_id.unwrap();
    assert_eq!(Session::find_by_token(&world.store, &authorization.token).unwrap().id, session_id);

    let mut second = accept(&mut world);
    let token = authorize(&mut world, &mut second, &authorization.token);
    assert_eq!(token, authorization.token);
    assert_eq!(second.session_id, Some(session_id));

    // an unknown token opens a new session
    let mut third = accept(&mut world);
    let other = authorize(&mut world, &mut third, "made up");
    assert_ne!(other, "made up");
    assert_ne!(third.session_id, Some(session_id));
}

#[test]
fn authorized_connection_answers_heartbeats() {
    let mut world = world();
    let mut connection = accept(&mut world);
    authorize(&mut world, &mut connection, "");
    let reaction = handle(
        &mut world,
        &mut connection,
        message(5, Opcode::HeartBeat, WebSocketMessagePayload::Empty),
        2500,
    );
    match reaction {
        WebSocketReaction::Send(reply) => {
            assert_eq!(reply.id, 5);
            assert_eq!(reply.connection_id, connection.id);
            assert_eq!(reply.opcode, Opcode::Response);
            assert!(reply.payload.is_none());
        },
        other => panic!("unexpected reaction {:?}", other),
    }
    assert_eq!(connection.last_heartbeat_at, 2500);
}

#[test]
fn authorized_connection_is_closed_by_authorize_and_error() {
    let mut world = world();
    let mut connection = accept(&mut world);
    authorize(&mut world, &mut connection, "");
    let again = message(1, Opcode::Authorize, WebSocketMessagePayload::Authorize { token: "".to_string() });
    assert!(matches!(
        handle(&mut world, &mut connection, again, 5),
        WebSocketReaction::Close(WebSocketCloseError::AlreadyAuthenticated)
    ));
    assert!(matches!(
        handle(&mut world, &mut connection, message(1, Opcode::Error, WebSocketMessagePayload::Empty), 5),
        WebSocketReaction::Close(WebSocketCloseError::Opcode)
    ));
    assert!(matches!(
        handle(&mut world, &mut connection, message(1, Opcode::Response, WebSocketMessagePayload::Empty), 5),
        WebSocketReaction::Ignore
    ));
    let reaction =
        handle(&mut world, &mut connection, message(4, Opcode::Request, WebSocketMessagePayload::Empty), 5);
    assert_eq!(error_of(reaction), (4, 400, "Bad request".to_string()));
}

#[test]
fn request_for_an_offer_joins_the_room() {
    let mut world = world();
    let mut connection = accept(&mut world);
    authorize(&mut world, &mut connection, "");
    let request = message(
        2,
        Opcode::Request,
        WebSocketMessagePayload::RequestGetRoomSdpOffer {
            room_name: "abc".to_string(),
            username: "bob".to_string(),
        },
    );
    let peer = match handle(&mut world, &mut connection, request, 5) {
        WebSocketReaction::Negotiate(peer) => peer,
        other => panic!("unexpected reaction {:?}", other),
    };
    assert_eq!(peer.connection_id, connection.id);
    assert!(!peer.close_previous);
    let room = Room::find_by_name(&world.store, "abc").unwrap();
    assert_eq!(room.id, peer.room_id);
    assert_eq!(room.active_connection_ids, vec![connection.id]);
    let user = User::find_by_username_and_room_id(&world.store, "bob", &room.id).unwrap();
    assert_eq!(user.id, peer.user_id);
    assert_eq!(user.session_id, connection.session_id.unwrap());
    assert_eq!(connection.registered_room_id, Some(room.id));
    assert_eq!(connection.registered_user_id, Some(user.id));
    assert_eq!(world.updates.len(), 1);

    let short = message(
        3,
        Opcode::Request,
        WebSocketMessagePayload::RequestGetRoomSdpOffer {
            room_name: "ab".to_string(),
            username: "bob".to_string(),
        },
    );
    let reaction = handle(&mut world, &mut connection, short, 5);
    assert_eq!(error_of(reaction), (3, 3001, "Room name is too short".to_string()));
    assert_eq!(connection.registered_room_id, Some(room.id));
}

#[test]
fn answer_on_a_fresh_connection_is_error_4002() {
    let mut world = world();
    let mut connection = accept(&mut world);
    authorize(&mut world, &mut connection, "");
    let answer = message(
        6,
        Opcode::Request,
        WebSocketMessagePayload::RequestPostRoomSdpAnswer { sdp: "v=0".to_string() },
    );
    let reaction = handle(&mut world, &mut connection, answer, 5);
    assert_eq!(error_of(reaction), (6, 4002, "WebRTC offer wasn't requested".to_string()));

    connection.web_rtc_connection = Some(1);
    let answer = message(
        7,
        Opcode::Request,
        WebSocketMessagePayload::RequestPostRoomSdpAnswer { sdp: "v=0".to_string() },
    );
    match handle(&mut world, &mut connection, answer, 5) {
        WebSocketReaction::Answer(answer) => assert_eq!(answer.sdp, "v=0"),
        other => panic!("unexpected reaction {:?}", other),
    }
}

#[test]
fn frames_of_the_transport() {
    let mut world = world();
    let mut connection = accept(&mut world);
    let World { store, generator, updates } = &mut world;
    assert!(matches!(
        connection.handle(Frame::Text, store, generator, 5, updates),
        WebSocketReaction::Close(WebSocketCloseError::InvalidMessage)
    ));
    assert!(matches!(
        connection.handle(Frame::Binary(vec![0xc1]), store, generator, 5, updates),
        WebSocketReaction::Close(WebSocketCloseError::InvalidMessage)
    ));
    assert!(matches!(
        connection.handle(Frame::Failed, store, generator, 5, updates),
        WebSocketReaction::Stop
    ));
    assert!(matches!(
        connection.handle(Frame::Close, store, generator, 5, updates),
        WebSocketReaction::EchoClose
    ));
    assert!(matches!(
        connection.handle(Frame::Other, store, generator, 5, updates),
        WebSocketReaction::Ignore
    ));
    // {i: 1, o: 0}: a heartbeat before authorizing
    let heartbeat = vec![0x82, 0xa1, b'i', 1, 0xa1, b'o', 0];
    assert!(matches!(
        connection.handle(Frame::Binary(heartbeat), store, generator, 5, updates),
        WebSocketReaction::Close(WebSocketCloseError::NotAuthenticated)
    ));
    // {i: 1, o: 4, p: {t: 30, token: ""}}
    let authorize = vec![
        0x83, 0xa1, b'i', 1, 0xa1, b'o', 4, 0xa1, b'p', 0x82, 0xa1, b't', 30, 0xa5, b't', b'o',
        b'k', b'e', b'n', 0xa0,
    ];
    assert!(matches!(
        connection.handle(Frame::Binary(authorize), store, generator, 5, updates),
        WebSocketReaction::Authorize(_)
    ));
    assert!(connection.session_id.is_some());
}

#[test]
fn control_connection_times_out_after_45_seconds() {
    let mut world = world();
    let connection = accept(&mut world);
    assert_eq!(WEB_SOCKET_CLIENT_TIMEOUT, 45000);
    assert!(!connection.heartbeat(1000));
    assert!(!connection.heartbeat(46000));
    assert!(connection.heartbeat(46001));
    // a clock that went back does not close
    assert!(!connection.heartbeat(0));
    assert!(connection.heartbeat(u64::MAX));
    assert!(matches!(connection.tick(46000), WebSocketReaction::Ignore));
    assert!(matches!(connection.tick(46001), WebSocketReaction::CloseNormal));
}

#[test]
fn peer_connection_times_out_after_15_seconds() {
    let request = PeerRequest {
        connection_id: 10,
        encoding: Encoding::MessagePack,
        room_id: 1,
        user_id: 100,
        close_previous: false,
    };
    let peer = WebRtcConnection::new(&request, 1000);
    assert_eq!(peer.id, 10);
    assert_eq!(peer.registered_room_id, 1);
    assert_eq!(peer.registered_user_id, 100);
    assert!(!peer.is_closing_connection);
    assert_eq!(WEB_RTC_CLIENT_TIMEOUT, 15000);
    assert!(!peer.heartbeat(16000));
    assert!(peer.heartbeat(16001));
    assert!(!peer.heartbeat(0));
}

#[test]
fn stopping_leaves_room_and_user() {
    let mut world = world();
    let mut connection = accept(&mut world);
    authorize(&mut world, &mut connection, "");
    let request = message(
        2,
        Opcode::Request,
        WebSocketMessagePayload::RequestGetRoomSdpOffer {
            room_name: "abc".to_string(),
            username: "bob".to_string(),
        },
    );
    handle(&mut world, &mut connection, request, 5);
    world.updates.clear();
    connection.web_rtc_connection = Some(3);
    let stopped = connection.stopping(&mut world.store, &mut world.updates);
    assert!(stopped.close_peer);
    assert_eq!(stopped.disconnection.connection_id, connection.id);
    assert_eq!(stopped.disconnection.registered_room_id, connection.registered_room_id);
    assert_eq!(Room::find_by_name(&world.store, "abc").unwrap_err().http_code, 404);
    assert_eq!(world.updates.len(), 1);
    assert!(world.updates[0].user.active_connection_ids.is_empty());

    let idle = accept(&mut world);
    let stopped = idle.stopping(&mut world.store, &mut world.updates);
    assert!(!stopped.close_peer);
    assert_eq!(stopped.disconnection.registered_room_id, None);
    assert_eq!(world.updates.len(), 1);
}

#[test]
fn control_registry_routes_to_registered_connections() {
    let mut registry: WebSocket<u32> = WebSocket::new();
    assert_eq!(registry.stopping(), 0);
    let missing = registry.get_connection(&10).unwrap_err();
    assert_eq!(missing.http_code, 500);
    assert_eq!(missing.message, "Couldn't find WebSocket connection");
    assert_eq!(missing.get_safe_message(), "Internal server error");

    let reply = registry.handle_authorization(
        AuthorizationMessage { id: 4, connection_id: 10, token: "secret".to_string() },
        77,
    );
    assert_eq!(reply.id, 4);
    assert_eq!(reply.connection_id, 10);
    assert_eq!(reply.opcode, Opcode::Response);
    match reply.payload {
        WebSocketMessagePayload::ResponseSession { ref token } => assert_eq!(token, "secret"),
        ref other => panic!("unexpected payload {:?}", other),
    }
    assert_eq!(registry.handle(&reply).ok(), Some(&77));
    assert_eq!(registry.stopping(), 1);
    // registering again overwrites
    registry.handle_authorization(
        AuthorizationMessage { id: 5, connection_id: 10, token: "secret".to_string() },
        78,
    );
    assert_eq!(registry.get_connection(&10).ok(), Some(&78));
    assert_eq!(registry.stopping(), 1);

    registry.handle_disconnection(DisconnectionMessage { connection_id: 11, registered_room_id: None });
    assert_eq!(registry.stopping(), 1);
    registry.handle_disconnection(DisconnectionMessage { connection_id: 10, registered_room_id: None });
    assert_eq!(registry.stopping(), 0);
    assert!(registry.handle(&reply).is_err());
}

#[test]
fn error_reply_carries_code_and_safe_message() {
    let taken = AppError::from_template(AppErrorTemplate::UsernameTaken(None));
    let reply = WebSocket::<u32>::error_reply(3, 10, &taken);
    assert_eq!(reply.id, 3);
    assert_eq!(reply.connection_id, 10);
    assert_eq!(reply.opcode, Opcode::Error);
    match reply.payload {
        WebSocketMessagePayload::Response { code, message } => {
            assert_eq!(code, 4001);
            assert_eq!(message, "The username is taken");
        },
        other => panic!("unexpected payload {:?}", other),
    }
    let internal = AppError::new(500, None, "stack trace".to_string(), None);
    let reply = WebRtc::<u32>::error_reply(3, 10, &internal);
    assert_eq!(reply.opcode, PeerOpcode::Error);
    match reply.payload {
        WebRtcMessagePayload::Response { code, message } => {
            assert_eq!(code, 500);
            assert_eq!(message, "Internal server error");
        },
        other => panic!("unexpected payload {:?}", other),
    }
}

fn peer(id: i64, room_id: i64, user_id: i64) -> WebRtcConnection {
    WebRtcConnection {
        id,
        last_heartbeat_at: 0,
        encoding: Encoding::MessagePack,
        registered_room_id: room_id,
        registered_user_id: user_id,
        is_closing_connection: false,
    }
}

fn peer_message(id: i64, opcode: PeerOpcode, payload: WebRtcMessagePayload) -> WebRtcMessage {
    WebRtcMessage { id, connection_id: 10, opcode, payload }
}

#[test]
fn peer_connection_dispatches_by_opcode() {
    let mut world = world();
    let mut connection = peer(10, 1, 100);
    let reaction = WebRtc::<u32>::handle_message(
        &mut connection,
        peer_message(4, PeerOpcode::HeartBeat, WebRtcMessagePayload::Empty),
        &mut world.store,
        &mut world.generator,
        700,
    )
    .unwrap();
    match reaction {
        WebRtcReaction::Send(reply) => {
            assert_eq!(reply.id, 4);
            assert_eq!(reply.connection_id, 10);
            assert_eq!(reply.opcode, PeerOpcode::Response);
            assert!(reply.payload.is_none());
        },
        other => panic!("unexpected reaction {:?}", other),
    }
    assert_eq!(connection.last_heartbeat_at, 700);

    for opcode in [PeerOpcode::Response, PeerOpcode::Error, PeerOpcode::Dispatch, PeerOpcode::Hello] {
        let reaction = WebRtc::<u32>::handle_message(
            &mut connection,
            peer_message(4, opcode, WebRtcMessagePayload::Empty),
            &mut world.store,
            &mut world.generator,
            800,
        )
        .unwrap();
        assert!(matches!(reaction, WebRtcReaction::Ignore));
    }
    assert_eq!(connection.last_heartbeat_at, 700);

    let error = WebRtc::<u32>::handle_message(
        &mut connection,
        peer_message(4, PeerOpcode::Request, WebRtcMessagePayload::Empty),
        &mut world.store,
        &mut world.generator,
        800,
    )
    .unwrap_err();
    assert_eq!(error.json_code, 400);

    let empty = WebRtc::<u32>::handle_message(
        &mut connection,
        peer_message(
            4,
            PeerOpcode::Request,
            WebRtcMessagePayload::RequestPostMessage { content: "".to_string() },
        ),
        &mut world.store,
        &mut world.generator,
        800,
    )
    .unwrap_err();
    assert_eq!(empty.json_code, 3005);

    let posted = WebRtc::<u32>::handle_message(
        &mut connection,
        peer_message(
            4,
            PeerOpcode::Request,
            WebRtcMessagePayload::RequestPostMessage { content: "hello".to_string() },
        ),
        &mut world.store,
        &mut world.generator,
        800,
    )
    .unwrap();
    match posted {
        WebRtcReaction::Broadcast(update) => {
            assert_eq!(update.room_id, 1);
            assert_eq!(update.message.author_id, 100);
            assert_eq!(update.message.content, "hello");
        },
        other => panic!("unexpected reaction {:?}", other),
    }
    assert_eq!(Message::find_all_by_room_id(&world.store, &1).unwrap().len(), 1);
}

fn room_of_three(store: &mut Database) {
    Room::create_with_id(store, 1, "abc".to_string()).unwrap();
    User::create_with_id(store, 100, "bob".to_string(), 1, 7).unwrap();
    User::create_with_id(store, 101, "amy".to_string(), 1, 8).unwrap();
    User::create_with_id(store, 102, "joe".to_string(), 2, 9).unwrap();
    User::register_connection(store, 10, &100).unwrap();
    User::register_connection(store, 11, &100).unwrap();
    User::register_connection(store, 12, &101).unwrap();
    User::register_connection(store, 13, &102).unwrap();
}

#[test]
fn updates_go_to_registered_connections_of_the_room() {
    let mut store = Database::new();
    room_of_three(&mut store);
    let mut registry: WebRtc<u32> = WebRtc::new();
    registry.handle_registration(RegistrationMessage { connection_id: 10 }, 1);
    registry.handle_registration(RegistrationMessage { connection_id: 12 }, 2);
    registry.handle_registration(RegistrationMessage { connection_id: 13 }, 3);
    assert_eq!(registry.stopping(), 3);

    let bob = User::find_by_username_and_room_id(&store, "bob", &1).unwrap();
    let list = registry
        .handle_user_update(&store, UserUpdateMessage { user: bob, room_id: 1 })
        .unwrap();
    // the connection 11 is not registered and is passed over; 13 is in another room
    assert_eq!(list.len(), 2);
    assert_eq!(list[0].connection_id, 10);
    assert_eq!(list[1].connection_id, 12);
    for message in &list {
        assert_eq!(message.id, -1);
        assert_eq!(message.opcode, PeerOpcode::Dispatch);
        match &message.payload {
            WebRtcMessagePayload::DispatchUserUpdate { user } => {
                assert_eq!(user.id, "100");
                assert_eq!(user.username, "bob");
                assert_eq!(user.status, UserStatus::Online);
            },
            other => panic!("unexpected payload {:?}", other),
        }
    }

    let posted = Message::create_with_id(&mut store, 5, 101, 1, "hi".to_string()).unwrap();
    registry.handle_disconnection(PeerDisconnection { connection_id: 10 });
    let list = registry
        .handle_message_update(&store, MessageUpdateMessage { message: posted, room_id: 1 })
        .unwrap();
    assert_eq!(list.len(), 1);
    assert_eq!(list[0].connection_id, 12);
    match &list[0].payload {
        WebRtcMessagePayload::DispatchMessageUpdate { message } => {
            assert_eq!(message.id, "5");
            assert_eq!(message.author_id, "101");
            assert_eq!(message.content, "hi");
        },
        other => panic!("unexpected payload {:?}", other),
    }
    assert_eq!(registry.handle(&list[0]).ok(), Some(&2));
    let missing = registry.get_connection(&10).unwrap_err();
    assert_eq!(missing.message, "Couldn't find WebRtc connection");
}

#[test]
fn hello_is_the_snapshot_of_the_room() {
    let mut store = Database::new();
    room_of_three(&mut store);
    User::unregister_connection(&mut store, &12, &101).unwrap();
    Message::create_with_id(&mut store, 5, 101, 1, "hi".to_string()).unwrap();
    Message::create_with_id(&mut store, 6, 102, 2, "elsewhere".to_string()).unwrap();
    Message::create_with_id(&mut store, 7, 100, 1, "ho".to_string()).unwrap();
    let hello = peer(10, 1, 100).hello(&store).unwrap();
    assert_eq!(hello.id, -1);
    assert_eq!(hello.connection_id, 10);
    assert_eq!(hello.opcode, PeerOpcode::Hello);
    match hello.payload {
        WebRtcMessagePayload::Hello { user_id, users, messages } => {
            assert_eq!(user_id, "100");
            assert_eq!(users.len(), 2);
            assert_eq!(users[0].username, "bob");
            assert_eq!(users[0].status, UserStatus::Online);
            assert_eq!(users[1].username, "amy");
            assert_eq!(users[1].status, UserStatus::Offline);
            assert_eq!(messages.len(), 2);
            assert_eq!(messages[0].content, "hi");
            assert_eq!(messages[1].id, "7");
        },
        other => panic!("unexpected payload {:?}", other),
    }
}

#[test]
fn offer_goes_out_as_an_unsolicited_response() {
    let (registration, started) = peer(10, 1, 100).started(Ok("v=0".to_string()));
    assert_eq!(registration.connection_id, 10);
    let message = match started {
        Started::Offer(message) => message,
        other => panic!("unexpected outcome {:?}", other),
    };
    assert_eq!(message.id, -1);
    assert_eq!(message.connection_id, 10);
    assert_eq!(message.opcode, Opcode::Response);
    match message.payload {
        WebSocketMessagePayload::ResponseRoomRtcOffer { sdp } => assert_eq!(sdp, "v=0"),
        other => panic!("unexpected payload {:?}", other),
    }
}

#[test]
fn failed_offer_closes_the_control_connection() {
    let failure = AppError::from_template(AppErrorTemplate::InternalServerError(None));
    let (registration, started) = peer(10, 1, 100).started(Err(failure));
    assert_eq!(registration.connection_id, 10);
    assert!(matches!(started, Started::CloseControl));
}

#[test]
fn peer_connection_reacts_to_what_happens() {
    let mut connection = peer(10, 1, 100);
    connection.last_heartbeat_at = 1000;
    let cases = vec![
        (WebRtcEvent::ChannelFailed, WebRtcAction::CloseControl),
        (WebRtcEvent::ChannelOpened, WebRtcAction::Hello),
        (WebRtcEvent::AnswerRefused, WebRtcAction::CloseControl),
        (WebRtcEvent::ReadEnded, WebRtcAction::Close),
        (WebRtcEvent::WriteFailed, WebRtcAction::Close),
        (WebRtcEvent::Tick(16000), WebRtcAction::Nothing),
        (WebRtcEvent::Tick(16001), WebRtcAction::Close),
        (WebRtcEvent::Tick(0), WebRtcAction::Nothing),
    ];
    for (event, action) in cases {
        assert_eq!(connection.handle(event), action);
        assert!(!connection.is_closing_connection);
        assert_eq!(connection.last_heartbeat_at, 1000);
    }
    assert_eq!(connection.handle(WebRtcEvent::CloseRequested), WebRtcAction::CloseSession);
    assert!(connection.is_closing_connection);
    assert_eq!(connection.handle(WebRtcEvent::ReadEnded), WebRtcAction::Close);
    assert!(connection.is_closing_connection);
    assert_eq!(connection.id, 10);
    assert_eq!(connection.registered_room_id, 1);
    assert_eq!(connection.registered_user_id, 100);
}

#[test]
fn frames_read_from_the_data_channel() {
    // {i: 3, o: 1, p: {t: 10, content: "hey"}}, then what is left of the buffer
    let mut buffer: Vec<u8> = vec![
        0x83, 0xa1, b'i', 3, 0xa1, b'o', 1, 0xa1, b'p', 0x82, 0xa1, b't', 10, 0xa7, b'c', b'o',
        b'n', b't', b'e', b'n', b't', 0xa3, b'h', b'e', b'y',
    ];
    let length = buffer.len();
    buffer.resize(64, 0);
    let handed = WebRtcConnection::receive_message(&buffer, length, 10).unwrap();
    assert_eq!(handed.message.id, 3);
    assert_eq!(handed.message.connection_id, 10);
    assert_eq!(handed.message.opcode, PeerOpcode::Request);
    match handed.message.payload {
        WebRtcMessagePayload::RequestPostMessage { content } => assert_eq!(content, "hey"),
        other => panic!("unexpected payload {:?}", other),
    }
    assert_eq!(WebRtcConnection::receive_message(&buffer, 0, 10).unwrap_err().json_code, 400);
    assert_eq!(WebRtcConnection::receive_message(&buffer, 65, 10).unwrap_err().json_code, 400);
    assert_eq!(WebRtcConnection::receive_message(&buffer, 5, 10).unwrap_err().json_code, 400);
}

#[test]
fn bytes_written_to_the_channels() {
    let control = WebSocketMessage {
        id: 1,
        connection_id: 10,
        opcode: Opcode::Response,
        payload: WebSocketMessagePayload::Empty,
    };
    let bytes =
        WebSocketConnection::<u8>::send_message(Encoding::MessagePack, &control).unwrap();
    assert_eq!(bytes, vec![0x82, 0xa1, b'i', 1, 0xa1, b'o', 2]);
    let peer = WebRtcMessage {
        id: 1,
        connection_id: 10,
        opcode: PeerOpcode::Hello,
        payload: WebRtcMessagePayload::Empty,
    };
    let bytes = WebRtcConnection::send_message(Encoding::MessagePack, &peer).unwrap();
    assert_eq!(bytes, vec![0x82, 0xa1, b'i', 1, 0xa1, b'o', 5]);
}
