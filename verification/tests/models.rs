use messenger::database::{remove_connection, Database};
use messenger::error::{AppError, AppErrorKind, AppErrorTemplate, StoreError, WebSocketCloseError};
use messenger::services::message::model::{Message, MessagePublic};
use messenger::services::room::model::Room;
use messenger::services::session::model::Session;
use messenger::services::user::model::{User, UserPublic, UserStatus};
use messenger::utils::decimal::decimal_string;
use messenger::utils::snowflake_generator;

fn text(length: usize) -> String {
    let mut result = String::new();
    for _ in 0..length {
        result.push('x');
    }
    result
}

#[test]
fn decimal_text_of_integers() {
    assert_eq!(decimal_string(0), "0");
    assert_eq!(decimal_string(7), "7");
    assert_eq!(decimal_string(10), "10");
    assert_eq!(decimal_string(1024), "1024");
    assert_eq!(decimal_string(-15), "-15");
    assert_eq!(decimal_string(i64::MAX), i64::MAX.to_string());
    assert_eq!(decimal_string(i64::MIN), i64::MIN.to_string());
}

#[test]
fn error_catalogue_has_stable_codes() {
    let cases: Vec<(AppErrorTemplate, u16, u32, &str)> = vec![
        (AppErrorTemplate::BadRequest(None), 400, 400, "Bad request"),
        (AppErrorTemplate::Unauthorized(None), 401, 401, "Unauthorized"),
        (AppErrorTemplate::NotFound(None), 404, 404, "Not found"),
        (AppErrorTemplate::Conflict(None), 409, 409, "Method not allowed"),
        (AppErrorTemplate::InternalServerError(None), 500, 500, "Internal server error"),
        (AppErrorTemplate::RoomNameTooShort(None), 400, 3001, "Room name is too short"),
        (AppErrorTemplate::RoomNameTooLong(None), 400, 3002, "Room name is too long"),
        (AppErrorTemplate::UsernameTooShort(None), 400, 3003, "Username is too short"),
        (AppErrorTemplate::UsernameTooLong(None), 400, 3004, "Username is too long"),
        (AppErrorTemplate::MessageContentTooShort(None), 400, 3005, "Message content is too short"),
        (AppErrorTemplate::MessageContentTooLong(None), 400, 3006, "Message content is too long"),
        (AppErrorTemplate::UsernameTaken(None), 400, 4001, "The username is taken"),
        (AppErrorTemplate::WebRtcOfferNotRequested(None), 400, 4002, "WebRTC offer wasn't requested"),
    ];
    for (template, http_code, json_code, message) in cases {
        let error = AppError::from_template(template);
        assert_eq!(error.http_code, http_code);
        assert_eq!(error.json_code, json_code);
        assert_eq!(error.message, message);
        assert_eq!(error.kind, AppErrorKind::Other);
    }
    let error = AppError::from_template(AppErrorTemplate::NotFound(Some(AppErrorKind::Store)));
    assert_eq!(error.kind, AppErrorKind::Store);
}

#[test]
fn error_without_code_takes_the_status() {
    let error = AppError::new(418, None, "teapot".to_string(), None);
    assert_eq!(error.json_code, 418);
    assert_eq!(error.kind, AppErrorKind::Other);
    let error = AppError::new(400, Some(7), "seven".to_string(), Some(AppErrorKind::Peer));
    assert_eq!(error.json_code, 7);
    assert_eq!(error.kind, AppErrorKind::Peer);
}

#[test]
fn safe_message_hides_server_errors() {
    let client = AppError::new(499, None, "Room name is too short".to_string(), None);
    assert_eq!(client.get_safe_message(), "Room name is too short");
    let server = AppError::new(500, None, "disk on fire".to_string(), None);
    assert_eq!(server.get_safe_message(), "Internal server error");
    let worse = AppError::new(503, None, "secret".to_string(), None);
    assert_eq!(worse.get_safe_message(), "Internal server error");
}

#[test]
fn store_errors_become_not_found_and_conflict() {
    let missing = AppError::from_store_error(StoreError::RecordNotFound);
    assert_eq!(missing.http_code, 404);
    assert_eq!(missing.kind, AppErrorKind::Store);
    let duplicate = AppError::from_store_error(StoreError::DuplicateKey);
    assert_eq!(duplicate.http_code, 409);
    assert_eq!(duplicate.kind, AppErrorKind::Store);
}

#[test]
fn close_codes_of_the_control_channel() {
    let cases = vec![
        (WebSocketCloseError::Unknown, 4000, "Unknown error"),
        (WebSocketCloseError::Opcode, 4001, "Opcode not allowed"),
        (WebSocketCloseError::InvalidMessage, 4002, "Invalid message"),
        (WebSocketCloseError::NotAuthenticated, 4003, "Not authenticated"),
        (WebSocketCloseError::AuthenticationFailed, 4004, "Authentication failed"),
        (WebSocketCloseError::AlreadyAuthenticated, 4005, "Already authenticated"),
    ];
    for (error, code, description) in cases {
        assert_eq!(error.code(), code);
        assert_eq!(error.description(), description);
    }
}

#[test]
fn room_name_length_is_counted_in_characters() {
    assert_eq!(Room::check_name_length("ab").unwrap_err().json_code, 3001);
    assert_eq!(Room::check_name_length("").unwrap_err().json_code, 3001);
    assert!(Room::check_name_length("abc").is_ok());
    assert!(Room::check_name_length(&text(32)).is_ok());
    assert_eq!(Room::check_name_length(&text(33)).unwrap_err().json_code, 3002);
    // three characters, six bytes
    assert!(Room::check_name_length("ééé").is_ok());
    // two characters, eight bytes
    assert_eq!(Room::check_name_length("😀😀").unwrap_err().json_code, 3001);
    let mut wide = String::new();
    for _ in 0..32 {
        wide.push('é');
    }
    assert!(Room::check_name_length(&wide).is_ok());
    wide.push('é');
    assert_eq!(Room::check_name_length(&wide).unwrap_err().json_code, 3002);
}

#[test]
fn username_length_is_checked() {
    assert_eq!(User::check_username_length("bo").unwrap_err().json_code, 3003);
    assert!(User::check_username_length("bob").is_ok());
    assert!(User::check_username_length(&text(32)).is_ok());
    assert_eq!(User::check_username_length(&text(33)).unwrap_err().json_code, 3004);
    assert_eq!(User::check_username_length(&text(33)).unwrap_err().http_code, 400);
}

#[test]
fn message_content_length_is_checked() {
    let empty = Message::check_content_length("").unwrap_err();
    assert_eq!(empty.json_code, 3005);
    assert_eq!(empty.message, "Message content is too short");
    assert!(Message::check_content_length("x").is_ok());
    assert!(Message::check_content_length(&text(1024)).is_ok());
    let long = Message::check_content_length(&text(1025)).unwrap_err();
    assert_eq!(long.json_code, 3006);
    assert_eq!(long.message, "Message content is too long");
}

#[test]
fn room_is_created_once_per_name() {
    let mut store = Database::new();
    let room = Room::create_with_id(&mut store, 1, "abc".to_string()).unwrap();
    assert_eq!(room.id, 1);
    assert_eq!(room.name, "abc");
    assert!(room.active_connection_ids.is_empty());
    let again = Room::create_with_id(&mut store, 2, "abc".to_string()).unwrap_err();
    assert_eq!(again.http_code, 409);
    let same_id = Room::create_with_id(&mut store, 1, "other".to_string()).unwrap_err();
    assert_eq!(same_id.http_code, 409);
    assert_eq!(Room::find_by_name(&store, "abc").unwrap().id, 1);
    assert_eq!(Room::find_by_name(&store, "other").unwrap_err().http_code, 404);
}

#[test]
fn room_with_generated_id() {
    let mut store = Database::new();
    let mut generator = snowflake_generator::init();
    let first = Room::create(&mut store, &mut generator, "abc".to_string()).unwrap();
    let second = Room::create(&mut store, &mut generator, "def".to_string()).unwrap();
    assert_ne!(first.id, second.id);
    assert_eq!(Room::find_by_name(&store, "abc").unwrap().id, first.id);
    assert_eq!(Room::find_by_name(&store, "def").unwrap().id, second.id);
}

#[test]
fn generated_ids_carry_machine_and_node_zero() {
    // the ten bits above the counter of twelve bits name the machine and the node
    let mut generator = snowflake_generator::init();
    for _ in 0..5000 {
        let id = snowflake_generator::generate(&mut generator);
        assert_eq!((id >> 12) & 0x3ff, 0);
    }
}

#[test]
fn room_connections_are_registered_in_order() {
    let mut store = Database::new();
    Room::create_with_id(&mut store, 1, "abc".to_string()).unwrap();
    Room::register_connection(&mut store, 10, &1).unwrap();
    Room::register_connection(&mut store, 11, &1).unwrap();
    assert_eq!(Room::find_by_name(&store, "abc").unwrap().active_connection_ids, vec![10, 11]);
    assert_eq!(Room::register_connection(&mut store, 10, &2).unwrap_err().http_code, 404);
}

#[test]
fn last_connection_deletes_room_and_its_users() {
    let mut store = Database::new();
    Room::create_with_id(&mut store, 1, "abc".to_string()).unwrap();
    Room::create_with_id(&mut store, 2, "def".to_string()).unwrap();
    User::create_with_id(&mut store, 100, "bob".to_string(), 1, 7).unwrap();
    User::create_with_id(&mut store, 101, "amy".to_string(), 1, 8).unwrap();
    User::create_with_id(&mut store, 102, "bob".to_string(), 2, 7).unwrap();
    Room::register_connection(&mut store, 10, &1).unwrap();
    Room::register_connection(&mut store, 11, &1).unwrap();
    Room::register_connection(&mut store, 12, &2).unwrap();

    Room::unregister_connection(&mut store, &10, &1).unwrap();
    assert_eq!(Room::find_by_name(&store, "abc").unwrap().active_connection_ids, vec![11]);
    assert_eq!(User::find_all_by_room_id(&store, &1).unwrap().len(), 2);

    // a connection that is not registered changes nothing
    Room::unregister_connection(&mut store, &99, &1).unwrap();
    assert_eq!(Room::find_by_name(&store, "abc").unwrap().active_connection_ids, vec![11]);

    Room::unregister_connection(&mut store, &11, &1).unwrap();
    assert_eq!(Room::find_by_name(&store, "abc").unwrap_err().http_code, 404);
    assert!(User::find_all_by_room_id(&store, &1).unwrap().is_empty());
    assert_eq!(User::find_by_username_and_room_id(&store, "bob", &1).unwrap_err().http_code, 404);

    // the other room and its user are intact
    assert_eq!(Room::find_by_name(&store, "def").unwrap().active_connection_ids, vec![12]);
    assert_eq!(User::find_by_username_and_room_id(&store, "bob", &2).unwrap().id, 102);
    assert_eq!(Room::unregister_connection(&mut store, &11, &1).unwrap_err().http_code, 404);
}

#[test]
fn username_is_unique_within_a_room() {
    let mut store = Database::new();
    let user = User::create_with_id(&mut store, 100, "bob".to_string(), 1, 7).unwrap();
    assert_eq!(user.id, 100);
    assert_eq!(user.session_id, 7);
    assert!(user.active_connection_ids.is_empty());
    let taken = User::create_with_id(&mut store, 101, "bob".to_string(), 1, 8).unwrap_err();
    assert_eq!(taken.http_code, 409);
    assert_eq!(taken.kind, AppErrorKind::Other);
    let same_id = User::create_with_id(&mut store, 100, "amy".to_string(), 1, 8).unwrap_err();
    assert_eq!(same_id.http_code, 409);
    assert_eq!(same_id.kind, AppErrorKind::Store);
    assert!(User::create_with_id(&mut store, 101, "bob".to_string(), 2, 8).is_ok());
    assert_eq!(User::find_by_username_and_room_id(&store, "bob", &1).unwrap().session_id, 7);
    assert_eq!(User::find_by_username_and_room_id(&store, "bob", &2).unwrap().session_id, 8);
}

#[test]
fn presence_follows_the_connections() {
    let mut store = Database::new();
    User::create_with_id(&mut store, 100, "bob".to_string(), 1, 7).unwrap();
    let user = User::find_by_username_and_room_id(&store, "bob", &1).unwrap();
    assert_eq!(UserPublic::from(user).status, UserStatus::Offline);

    let update = User::register_connection(&mut store, 10, &100).unwrap().unwrap();
    assert_eq!(update.room_id, 1);
    assert_eq!(update.user.active_connection_ids, vec![10]);
    assert_eq!(UserPublic::from(update.user).status, UserStatus::Online);

    // a second connection is no change of presence
    assert!(User::register_connection(&mut store, 11, &100).unwrap().is_none());
    let user = User::find_by_username_and_room_id(&store, "bob", &1).unwrap();
    assert_eq!(user.active_connection_ids, vec![10, 11]);
    assert_eq!(UserPublic::from(user).status, UserStatus::Online);

    assert!(User::unregister_connection(&mut store, &10, &100).unwrap().is_none());
    let user = User::find_by_username_and_room_id(&store, "bob", &1).unwrap();
    assert_eq!(UserPublic::from(user).status, UserStatus::Online);

    let update = User::unregister_connection(&mut store, &11, &100).unwrap().unwrap();
    assert!(update.user.active_connection_ids.is_empty());
    let public = UserPublic::from(update.user);
    assert_eq!(public.status, UserStatus::Offline);
    assert_eq!(public.id, "100");
    assert_eq!(public.username, "bob");

    // a user without a connection stays offline: no change, no update
    assert!(User::unregister_connection(&mut store, &11, &100).unwrap().is_none());
    assert!(User::unregister_connection(&mut store, &12, &100).unwrap().is_none());

    assert_eq!(User::register_connection(&mut store, 10, &5).unwrap_err().http_code, 404);
    assert_eq!(User::unregister_connection(&mut store, &10, &5).unwrap_err().http_code, 404);
}

#[test]
fn users_are_deleted_by_room() {
    let mut store = Database::new();
    User::create_with_id(&mut store, 100, "bob".to_string(), 1, 7).unwrap();
    User::create_with_id(&mut store, 101, "amy".to_string(), 2, 7).unwrap();
    User::create_with_id(&mut store, 102, "joe".to_string(), 1, 7).unwrap();
    User::delete_by_room_id(&mut store, &1).unwrap();
    assert!(User::find_all_by_room_id(&store, &1).unwrap().is_empty());
    let others = User::find_all_by_room_id(&store, &2).unwrap();
    assert_eq!(others.len(), 1);
    assert_eq!(others[0].username, "amy");
}

#[test]
fn user_status_numbers() {
    assert_eq!(UserStatus::Offline.code(), 0);
    assert_eq!(UserStatus::Online.code(), 1);
    assert_eq!(UserStatus::from_code(0), Some(UserStatus::Offline));
    assert_eq!(UserStatus::from_code(1), Some(UserStatus::Online));
    assert_eq!(UserStatus::from_code(2), None);
    assert_eq!(UserStatus::default(), UserStatus::Offline);
}

#[test]
fn messages_are_kept_in_order_by_room() {
    let mut store = Database::new();
    Message::create_with_id(&mut store, 1, 100, 1, "one".to_string()).unwrap();
    Message::create_with_id(&mut store, 2, 100, 2, "two".to_string()).unwrap();
    Message::create_with_id(&mut store, 3, 101, 1, "three".to_string()).unwrap();
    let duplicate = Message::create_with_id(&mut store, 3, 101, 1, "again".to_string());
    assert_eq!(duplicate.unwrap_err().http_code, 409);
    let messages = Message::find_all_by_room_id(&store, &1).unwrap();
    assert_eq!(messages.len(), 2);
    assert_eq!(messages[0].content, "one");
    assert_eq!(messages[1].content, "three");
    let public = MessagePublic::from(messages[1].clone());
    assert_eq!(public.id, "3");
    assert_eq!(public.author_id, "101");
    assert_eq!(public.content, "three");
    assert!(Message::find_all_by_room_id(&store, &9).unwrap().is_empty());
}

#[test]
fn message_with_generated_id() {
    let mut store = Database::new();
    let mut generator = snowflake_generator::init();
    let message = Message::create(&mut store, &mut generator, 1, 2, "hi".to_string()).unwrap();
    assert_eq!(message.author_id, 1);
    assert_eq!(message.room_id, 2);
    assert_eq!(Message::find_all_by_room_id(&store, &2).unwrap()[0].id, message.id);
    let user = User::create(&mut store, &mut generator, "bob".to_string(), 2, 3).unwrap();
    assert_ne!(user.id, message.id);
}

#[test]
fn session_is_found_by_its_token() {
    let mut store = Database::new();
    let session = Session::create_with(&mut store, 1, "secret".to_string()).unwrap();
    assert_eq!(session.id, 1);
    assert_eq!(Session::find_by_token(&store, "secret").unwrap().id, 1);
    assert_eq!(Session::find_by_token(&store, "other").unwrap_err().http_code, 404);
    let same_token = Session::create_with(&mut store, 2, "secret".to_string()).unwrap_err();
    assert_eq!(same_token.http_code, 409);
    let same_id = Session::create_with(&mut store, 1, "fresh".to_string()).unwrap_err();
    assert_eq!(same_id.http_code, 409);
}

#[test]
fn fresh_token_is_random_text_and_an_id() {
    let mut store = Database::new();
    let mut generator = snowflake_generator::init();
    let first = Session::create(&mut store, &mut generator).unwrap();
    let second = Session::create(&mut store, &mut generator).unwrap();
    assert_ne!(first.id, second.id);
    assert_ne!(first.token, second.token);
    for session in [first, second] {
        let characters: Vec<char> = session.token.chars().collect();
        assert!(characters.len() > 45);
        for c in &characters[..45] {
            assert!(c.is_ascii_alphanumeric() || *c == '_' || *c == '-');
        }
        let suffix: String = characters[45..].iter().collect();
        assert!(suffix.parse::<i64>().unwrap() > 0);
        assert_eq!(Session::find_by_token(&store, &session.token).unwrap().id, session.id);
    }
}

#[test]
fn connection_is_removed_wherever_it_stands() {
    assert_eq!(remove_connection(&vec![1, 2, 1, 3], 1), vec![2, 3]);
    assert_eq!(remove_connection(&vec![1], 1), Vec::<i64>::new());
    assert_eq!(remove_connection(&vec![2, 3], 1), vec![2, 3]);
    assert_eq!(remove_connection(&vec![], 1), Vec::<i64>::new());
}
