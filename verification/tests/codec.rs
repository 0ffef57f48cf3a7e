use messenger::codec::bytes::{pack, unpack};
use messenger::codec::value::Value;
use messenger::services::message::model::MessagePublic;
use messenger::services::user::model::{UserPublic, UserStatus};
use messenger::web_rtc::message::{Opcode as PeerOpcode, WebRtcMessage, WebRtcMessagePayload};
use messenger::web_socket::message::{Opcode, WebSocketMessage, WebSocketMessagePayload};

fn control(id: i64, opcode: Opcode, payload: WebSocketMessagePayload) -> WebSocketMessage {
    WebSocketMessage { id, connection_id: 0, opcode, payload }
}

#[test]
fn envelope_without_body_is_two_entries() {
    let bytes = control(1, Opcode::Response, WebSocketMessagePayload::Empty).encode().unwrap();
    assert_eq!(bytes, vec![0x82, 0xa1, b'i', 0x01, 0xa1, b'o', 0x02]);
}

#[test]
fn unsolicited_id_is_minus_one_on_the_wire() {
    let bytes = control(-1, Opcode::HeartBeat, WebSocketMessagePayload::Empty).encode().unwrap();
    assert_eq!(bytes, vec![0x82, 0xa1, b'i', 0xff, 0xa1, b'o', 0x00]);
    let back = WebSocketMessage::decode(&bytes).unwrap();
    assert_eq!(back.id, -1);
    assert_eq!(back.opcode, Opcode::HeartBeat);
    assert!(back.payload.is_none());
}

#[test]
fn body_starts_with_its_tag() {
    let message = control(
        7,
        Opcode::Authorize,
        WebSocketMessagePayload::Authorize { token: "ab".to_string() },
    );
    let bytes = message.encode().unwrap();
    let expected: Vec<u8> = vec![
        0x83, 0xa1, b'i', 0x07, 0xa1, b'o', 0x04, 0xa1, b'p', 0x82, 0xa1, b't', 30, 0xa5, b't',
        b'o', b'k', b'e', b'n', 0xa2, b'a', b'b',
    ];
    assert_eq!(bytes, expected);
}

#[test]
fn control_round_trip_through_bytes() {
    let cases = vec![
        control(
            1,
            Opcode::Request,
            WebSocketMessagePayload::RequestGetRoomSdpOffer {
                room_name: "abc".to_string(),
                username: "bob".to_string(),
            },
        ),
        control(
            2,
            Opcode::Request,
            WebSocketMessagePayload::RequestPostRoomSdpAnswer { sdp: "v=0".to_string() },
        ),
        control(
            3,
            Opcode::Request,
            WebSocketMessagePayload::RequestPostRoomIceCandidate {
                candidate: "c".to_string(),
                sdp_mid: Some("0".to_string()),
                sdp_m_line_index: Some(65535),
                username_fragment: None,
            },
        ),
        control(
            4,
            Opcode::Error,
            WebSocketMessagePayload::Response { code: 4002, message: "no".to_string() },
        ),
        control(
            5,
            Opcode::Response,
            WebSocketMessagePayload::ResponseSession { token: "t".to_string() },
        ),
        control(
            i64::MIN,
            Opcode::Response,
            WebSocketMessagePayload::ResponseRoomRtcOffer { sdp: "offer".to_string() },
        ),
        control(
            i64::MAX,
            Opcode::Authorize,
            WebSocketMessagePayload::Authorize { token: "".to_string() },
        ),
        control(0, Opcode::HeartBeat, WebSocketMessagePayload::Empty),
    ];
    for message in cases {
        let bytes = message.encode().unwrap();
        let back = WebSocketMessage::decode(&bytes).unwrap();
        assert_eq!(back.id, message.id);
        assert_eq!(back.connection_id, 0);
        assert_eq!(back.opcode, message.opcode);
        assert_eq!(format!("{:?}", back.payload), format!("{:?}", message.payload));
    }
}

#[test]
fn peer_round_trip_through_bytes() {
    let user = UserPublic {
        id: "12".to_string(),
        username: "bob".to_string(),
        status: UserStatus::Online,
    };
    let text = MessagePublic {
        id: "5".to_string(),
        author_id: "12".to_string(),
        content: "hé".to_string(),
    };
    let cases = vec![
        WebRtcMessagePayload::RequestPostMessage { content: "hello".to_string() },
        WebRtcMessagePayload::Response { code: 3005, message: "short".to_string() },
        WebRtcMessagePayload::DispatchUserUpdate { user: user.clone() },
        WebRtcMessagePayload::DispatchMessageUpdate { message: text.clone() },
        WebRtcMessagePayload::Hello {
            user_id: "12".to_string(),
            users: vec![user.clone(), user],
            messages: vec![text],
        },
        WebRtcMessagePayload::Hello { user_id: "1".to_string(), users: vec![], messages: vec![] },
        WebRtcMessagePayload::Empty,
    ];
    for payload in cases {
        let expected = format!("{:?}", payload);
        let message =
            WebRtcMessage { id: -1, connection_id: 9, opcode: PeerOpcode::Dispatch, payload };
        let bytes = message.encode().unwrap();
        let back = WebRtcMessage::decode(&bytes).unwrap();
        assert_eq!(back.id, -1);
        assert_eq!(back.connection_id, 0);
        assert_eq!(back.opcode, PeerOpcode::Dispatch);
        assert_eq!(format!("{:?}", back.payload), expected);
    }
}

#[test]
fn unknown_body_is_read_as_empty() {
    // {i: 1, o: 1, p: {t: 99, x: 1}}
    let bytes: Vec<u8> =
        vec![0x83, 0xa1, b'i', 1, 0xa1, b'o', 1, 0xa1, b'p', 0x82, 0xa1, b't', 99, 0xa1, b'x', 1];
    let message = WebSocketMessage::decode(&bytes).unwrap();
    assert_eq!(message.opcode, Opcode::Request);
    assert!(message.payload.is_none());
}

#[test]
fn tag_as_string_is_read_as_empty() {
    // {i: 1, o: 4, p: {t: "30", token: "x"}}
    let bytes: Vec<u8> = vec![
        0x83, 0xa1, b'i', 1, 0xa1, b'o', 4, 0xa1, b'p', 0x82, 0xa1, b't', 0xa2, b'3', b'0', 0xa5,
        b't', b'o', b'k', b'e', b'n', 0xa1, b'x',
    ];
    let message = WebSocketMessage::decode(&bytes).unwrap();
    assert!(message.payload.is_none());
}

#[test]
fn key_of_the_tag_is_not_looked_at() {
    // {i: 1, o: 4, p: {zz: 30, token: "x"}}
    let bytes: Vec<u8> = vec![
        0x83, 0xa1, b'i', 1, 0xa1, b'o', 4, 0xa1, b'p', 0x82, 0xa2, b'z', b'z', 30, 0xa5, b't',
        b'o', b'k', b'e', b'n', 0xa1, b'x',
    ];
    let message = WebSocketMessage::decode(&bytes).unwrap();
    match message.payload {
        WebSocketMessagePayload::Authorize { token } => assert_eq!(token, "x"),
        other => panic!("unexpected payload {:?}", other),
    }
}

#[test]
fn field_given_twice_is_read_as_empty() {
    // {i: 1, o: 4, p: {t: 30, token: "x", token: "y"}}
    let bytes: Vec<u8> = vec![
        0x83, 0xa1, b'i', 1, 0xa1, b'o', 4, 0xa1, b'p', 0x83, 0xa1, b't', 30, 0xa5, b't', b'o',
        b'k', b'e', b'n', 0xa1, b'x', 0xa5, b't', b'o', b'k', b'e', b'n', 0xa1, b'y',
    ];
    let message = WebSocketMessage::decode(&bytes).unwrap();
    assert_eq!(message.opcode, Opcode::Authorize);
    assert!(message.payload.is_none());
    // {i: 1, o: 4, p: {t: 30, token: "x", t: 30}}
    let bytes: Vec<u8> = vec![
        0x83, 0xa1, b'i', 1, 0xa1, b'o', 4, 0xa1, b'p', 0x83, 0xa1, b't', 30, 0xa5, b't', b'o',
        b'k', b'e', b'n', 0xa1, b'x', 0xa1, b't', 30,
    ];
    assert!(WebSocketMessage::decode(&bytes).unwrap().payload.is_none());
    // {i: 1, o: 4, p: {t: 30, token: "x", other: 1, other: 2}}: names that are no fields
    let bytes: Vec<u8> = vec![
        0x83, 0xa1, b'i', 1, 0xa1, b'o', 4, 0xa1, b'p', 0x84, 0xa1, b't', 30, 0xa5, b't', b'o',
        b'k', b'e', b'n', 0xa1, b'x', 0xa5, b'o', b't', b'h', b'e', b'r', 1, 0xa5, b'o', b't',
        b'h', b'e', b'r', 2,
    ];
    match WebSocketMessage::decode(&bytes).unwrap().payload {
        WebSocketMessagePayload::Authorize { token } => assert_eq!(token, "x"),
        other => panic!("unexpected payload {:?}", other),
    }
    // {i: 1, i: 2, o: 0}: the envelope itself
    let bytes: Vec<u8> = vec![0x83, 0xa1, b'i', 1, 0xa1, b'i', 2, 0xa1, b'o', 0];
    let error = WebSocketMessage::decode(&bytes).unwrap_err();
    assert_eq!(error.message, "RMP serde decode error: Invalid envelope");
    // {i: 1, o: 0, p: {t: 0}, p: {t: 0}}
    let bytes: Vec<u8> = vec![
        0x84, 0xa1, b'i', 1, 0xa1, b'o', 0, 0xa1, b'p', 0x81, 0xa1, b't', 0, 0xa1, b'p', 0x81,
        0xa1, b't', 0,
    ];
    assert!(WebRtcMessage::decode(&bytes).is_err());
}

#[test]
fn integer_without_a_number_goes_as_zero() {
    assert_eq!(pack(&Value::Integer(None, None)).unwrap(), vec![0x00]);
    assert_eq!(pack(&Value::Integer(None, Some(0))).unwrap(), vec![0x00]);
    assert_eq!(pack(&Value::Integer(Some(0), None)).unwrap(), vec![0x00]);
    assert_eq!(pack(&Value::Integer(None, Some(5))).unwrap(), vec![0x05]);
    assert_eq!(pack(&Value::Integer(None, Some(-1))).unwrap(), vec![0xff]);
    assert!(pack(&Value::String(None)).is_err());
    assert!(pack(&Value::array(vec![Value::Nil, Value::Single(0)])).is_err());
}

#[test]
fn body_that_is_no_map_fails_the_message() {
    // {i: 1, o: 1, p: 5}
    let bytes: Vec<u8> = vec![0x83, 0xa1, b'i', 1, 0xa1, b'o', 1, 0xa1, b'p', 5];
    let error = WebSocketMessage::decode(&bytes).unwrap_err();
    assert_eq!(error.http_code, 500);
    assert_eq!(error.message, "RMP serde decode error: Not a Map");
    // {i: 1, o: 1, p: {}}
    let bytes: Vec<u8> = vec![0x83, 0xa1, b'i', 1, 0xa1, b'o', 1, 0xa1, b'p', 0x80];
    let error = WebSocketMessage::decode(&bytes).unwrap_err();
    assert_eq!(error.message, "RMP serde decode error: There are no elements in payload");
}

#[test]
fn malformed_frames_fail() {
    let truncated = WebSocketMessage::decode(&[]).unwrap_err();
    assert_eq!(truncated.http_code, 500);
    assert_eq!(truncated.json_code, 500);
    assert!(truncated.message.starts_with("RMP serde decode error: "));
    assert!(truncated.message.len() > "RMP serde decode error: ".len());
    assert!(WebSocketMessage::decode(&[0xa1]).is_err());
    // a string, not a map
    let envelope = WebSocketMessage::decode(&[0xa1, b'x']).unwrap_err();
    assert_eq!(envelope.message, "RMP serde decode error: Invalid envelope");
    // {i: 1}: no opcode
    assert!(WebSocketMessage::decode(&[0x81, 0xa1, b'i', 1]).is_err());
    // {i: 1, o: 5}: no such control opcode
    assert!(WebSocketMessage::decode(&[0x82, 0xa1, b'i', 1, 0xa1, b'o', 5]).is_err());
    // the same bytes name the peer opcode Hello
    let hello = WebRtcMessage::decode(&[0x82, 0xa1, b'i', 1, 0xa1, b'o', 5]).unwrap();
    assert_eq!(hello.opcode, PeerOpcode::Hello);
    assert!(WebRtcMessage::decode(&[0x82, 0xa1, b'i', 1, 0xa1, b'o', 6]).is_err());
}

#[test]
fn values_pass_through_bytes() {
    let value = Value::table(vec![
        (Value::text("n"), Value::from_i64(-5)),
        (Value::text("b"), Value::Boolean(true)),
        (Value::text("a"), Value::array(vec![Value::Nil, Value::from_u64(u64::MAX)])),
        (Value::text("x"), Value::Binary(vec![1, 2, 3])),
    ]);
    let bytes = pack(&value).unwrap();
    let back = unpack(&bytes).unwrap();
    assert_eq!(format!("{:?}", back), format!("{:?}", value));
    let refused = pack(&Value::Double(0)).unwrap_err();
    assert_eq!(refused.http_code, 500);
    assert_eq!(refused.message, "RMP serde encode error: value out of the data model");
    assert_eq!(refused.get_safe_message(), "Internal server error");
    let float = unpack(&[0xcb, 0x40, 0x24, 0, 0, 0, 0, 0, 0]).unwrap();
    assert_eq!(format!("{:?}", float), format!("{:?}", Value::Double(0x4024_0000_0000_0000)));
}
