//! The bodies of control-channel messages.

use vstd::prelude::*;
use vstd::string::*;

use crate::codec::value::{
    entry,
    entry_views,
    field,
    get_integer,
    get_optional_integer,
    get_optional_text,
    get_text,
    integer_field,
    lookup,
    occurrences,
    optional_integer_field,
    optional_integer_value,
    optional_text_field,
    optional_text_value,
    tagged,
    tagged_table,
    text_field,
    text_value,
    DecodeError,
    Value,
    ValueView,
};

verus! {

/// The value of an optional text.
pub open spec fn text_view(text: Option<String>) -> Option<Seq<char>> {
    match text {
        Some(text) => Some(text@),
        None => None,
    }
}

/// The body of a control-channel message. Each variant has a tag: the
/// number it is known by on the wire.
#[derive(Debug)]
pub enum WebSocketMessagePayload {
    /// Tag 10. Asks to join a room and to be sent an offer.
    RequestGetRoomSdpOffer { room_name: String, username: String },
    /// Tag 11. Answers the offer.
    RequestPostRoomSdpAnswer { sdp: String },
    /// Tag 12. Reserved.
    RequestPostRoomIceCandidate {
        candidate: String,
        sdp_mid: Option<String>,
        sdp_m_line_index: Option<u16>,
        username_fragment: Option<String>,
    },
    /// Tag 20. A code and a message, as an error reply carries them.
    Response { code: u32, message: String },
    /// Tag 21. The token of the session.
    ResponseSession { token: String },
    /// Tag 22. The offer of the server.
    ResponseRoomRtcOffer { sdp: String },
    /// Tag 30. Opens or resumes a session.
    Authorize { token: String },
    /// Tag 0. No body.
    Empty,
}

/// The mathematical value of a [`WebSocketMessagePayload`].
pub ghost enum WebSocketMessagePayloadView {
    RequestGetRoomSdpOffer { room_name: Seq<char>, username: Seq<char> },
    RequestPostRoomSdpAnswer { sdp: Seq<char> },
    RequestPostRoomIceCandidate {
        candidate: Seq<char>,
        sdp_mid: Option<Seq<char>>,
        sdp_m_line_index: Option<u16>,
        username_fragment: Option<Seq<char>>,
    },
    Response { code: u32, message: Seq<char> },
    ResponseSession { token: Seq<char> },
    ResponseRoomRtcOffer { sdp: Seq<char> },
    Authorize { token: Seq<char> },
    Empty,
}

impl View for WebSocketMessagePayload {
    type V = WebSocketMessagePayloadView;

    open spec fn view(&self) -> WebSocketMessagePayloadView {
        match self {
            WebSocketMessagePayload::RequestGetRoomSdpOffer { room_name, username } => {
                WebSocketMessagePayloadView::RequestGetRoomSdpOffer {
                    room_name: room_name@,
                    username: username@,
                }
            },
            WebSocketMessagePayload::RequestPostRoomSdpAnswer { sdp } => {
                WebSocketMessagePayloadView::RequestPostRoomSdpAnswer { sdp: sdp@ }
            },
            WebSocketMessagePayload::RequestPostRoomIceCandidate {
                candidate,
                sdp_mid,
                sdp_m_line_index,
                username_fragment,
            } => WebSocketMessagePayloadView::RequestPostRoomIceCandidate {
                candidate: candidate@,
                sdp_mid: text_view(*sdp_mid),
                sdp_m_line_index: *sdp_m_line_index,
                username_fragment: text_view(*username_fragment),
            },
            WebSocketMessagePayload::Response { code, message } => {
                WebSocketMessagePayloadView::Response { code: *code, message: message@ }
            },
            WebSocketMessagePayload::ResponseSession { token } => {
                WebSocketMessagePayloadView::ResponseSession { token: token@ }
            },
            WebSocketMessagePayload::ResponseRoomRtcOffer { sdp } => {
                WebSocketMessagePayloadView::ResponseRoomRtcOffer { sdp: sdp@ }
            },
            WebSocketMessagePayload::Authorize { token } => {
                WebSocketMessagePayloadView::Authorize { token: token@ }
            },
            WebSocketMessagePayload::Empty => WebSocketMessagePayloadView::Empty,
        }
    }
}

impl Default for WebSocketMessagePayload {
    fn default() -> (result: Self)
        ensures
            result@ == WebSocketMessagePayloadView::Empty,
    {
        WebSocketMessagePayload::Empty
    }
}

impl WebSocketMessagePayload {
    /// Whether the message has no body.
    pub fn is_none(&self) -> (result: bool)
        ensures
            result == (self@ == WebSocketMessagePayloadView::Empty),
    {
        matches!(self, WebSocketMessagePayload::Empty)
    }
}

impl WebSocketMessagePayloadView {
    /// The number the variant is known by on the wire.
    pub open spec fn tag(self) -> int {
        match self {
            WebSocketMessagePayloadView::RequestGetRoomSdpOffer { .. } => 10,
            WebSocketMessagePayloadView::RequestPostRoomSdpAnswer { .. } => 11,
            WebSocketMessagePayloadView::RequestPostRoomIceCandidate { .. } => 12,
            WebSocketMessagePayloadView::Response { .. } => 20,
            WebSocketMessagePayloadView::ResponseSession { .. } => 21,
            WebSocketMessagePayloadView::ResponseRoomRtcOffer { .. } => 22,
            WebSocketMessagePayloadView::Authorize { .. } => 30,
            WebSocketMessagePayloadView::Empty => 0,
        }
    }

    /// The fields of the body, each under its name, in their order.
    pub open spec fn fields(self) -> Seq<(ValueView, ValueView)> {
        match self {
            WebSocketMessagePayloadView::RequestGetRoomSdpOffer { room_name, username } => seq![
                field("room_name"@, text_value(room_name)),
                field("username"@, text_value(username)),
            ],
            WebSocketMessagePayloadView::RequestPostRoomSdpAnswer { sdp } => seq![
                field("sdp"@, text_value(sdp)),
            ],
            WebSocketMessagePayloadView::RequestPostRoomIceCandidate {
                candidate,
                sdp_mid,
                sdp_m_line_index,
                username_fragment,
            } => seq![
                field("candidate"@, text_value(candidate)),
                field("sdp_mid"@, optional_text_value(sdp_mid)),
                field(
                    "sdp_m_line_index"@,
                    optional_integer_value(
                        match sdp_m_line_index {
                            Some(index) => Some(index as int),
                            None => None,
                        },
                    ),
                ),
                field("username_fragment"@, optional_text_value(username_fragment)),
            ],
            WebSocketMessagePayloadView::Response { code, message } => seq![
                field("code"@, ValueView::Integer(code as int)),
                field("message"@, text_value(message)),
            ],
            WebSocketMessagePayloadView::ResponseSession { token } => seq![
                field("token"@, text_value(token)),
            ],
            WebSocketMessagePayloadView::ResponseRoomRtcOffer { sdp } => seq![
                field("sdp"@, text_value(sdp)),
            ],
            WebSocketMessagePayloadView::Authorize { token } => seq![
                field("token"@, text_value(token)),
            ],
            WebSocketMessagePayloadView::Empty => Seq::empty(),
        }
    }

    /// The body on the wire: a map that starts with the tag under the key
    /// `t` and goes on with the fields.
    pub open spec fn to_value(self) -> ValueView {
        tagged(self.tag(), self.fields())
    }

    /// The body that the entries of a map stand for. The value of the
    /// first entry, an integer, is the tag; its key is not looked at, and
    /// stands for `t`. The fields of the variant are looked up by name
    /// among the entries that follow; entries of other names are passed
    /// over. Where the tag is no integer or names no variant, or a field is
    /// missing, of another type or given twice, or an entry that follows
    /// has the key `t`, the body is empty.
    pub open spec fn from_entries(entries: Seq<(ValueView, ValueView)>) -> Self {
        let none = WebSocketMessagePayloadView::Empty;
        match entries[0].1 {
            ValueView::Integer(tag) => {
                if lookup(entries, 1, "t"@) is Some {
                    none
                } else if tag == 10 {
                    match (text_field(entries, 1, "room_name"@), text_field(entries, 1, "username"@)) {
                        (Some(room_name), Some(username)) => {
                            WebSocketMessagePayloadView::RequestGetRoomSdpOffer {
                                room_name,
                                username,
                            }
                        },
                        _ => none,
                    }
                } else if tag == 11 {
                    match text_field(entries, 1, "sdp"@) {
                        Some(sdp) => WebSocketMessagePayloadView::RequestPostRoomSdpAnswer { sdp },
                        None => none,
                    }
                } else if tag == 12 {
                    match (
                        text_field(entries, 1, "candidate"@),
                        optional_text_field(entries, 1, "sdp_mid"@),
                        optional_integer_field(entries, 1, "sdp_m_line_index"@, 0, 65535),
                        optional_text_field(entries, 1, "username_fragment"@),
                    ) {
                        (
                            Some(candidate),
                            Some(sdp_mid),
                            Some(sdp_m_line_index),
                            Some(username_fragment),
                        ) => WebSocketMessagePayloadView::RequestPostRoomIceCandidate {
                            candidate,
                            sdp_mid,
                            sdp_m_line_index: match sdp_m_line_index {
                                Some(index) => Some(index as u16),
                                None => None,
                            },
                            username_fragment,
                        },
                        _ => none,
                    }
                } else if tag == 20 {
                    match (
                        integer_field(entries, 1, "code"@, 0, 4294967295),
                        text_field(entries, 1, "message"@),
                    ) {
                        (Some(code), Some(message)) => WebSocketMessagePayloadView::Response {
                            code: code as u32,
                            message,
                        },
                        _ => none,
                    }
                } else if tag == 21 {
                    match text_field(entries, 1, "token"@) {
                        Some(token) => WebSocketMessagePayloadView::ResponseSession { token },
                        None => none,
                    }
                } else if tag == 22 {
                    match text_field(entries, 1, "sdp"@) {
                        Some(sdp) => WebSocketMessagePayloadView::ResponseRoomRtcOffer { sdp },
                        None => none,
                    }
                } else if tag == 30 {
                    match text_field(entries, 1, "token"@) {
                        Some(token) => WebSocketMessagePayloadView::Authorize { token },
                        None => none,
                    }
                } else {
                    none
                }
            },
            _ => none,
        }
    }

    /// The body that a value stands for: that of its entries where it is a
    /// map with entries; `NotAMap` and `NoElements` otherwise.
    pub open spec fn from_value(value: ValueView) -> Result<Self, DecodeError> {
        match value {
            ValueView::Table(entries) => if entries.len() == 0 {
                Err(DecodeError::NoElements)
            } else {
                Ok(Self::from_entries(entries))
            },
            _ => Err(DecodeError::NotAMap),
        }
    }
}

impl WebSocketMessagePayload {
    /// The body as a value to put on the wire.
    pub fn to_value(&self) -> (result: Value)
        ensures
            result@ == self@.to_value(),
    {
        let mut fields: Vec<(Value, Value)> = Vec::new();
        match self {
            WebSocketMessagePayload::RequestGetRoomSdpOffer { room_name, username } => {
                fields.push(entry("room_name", Value::from_string(room_name.clone())));
                fields.push(entry("username", Value::from_string(username.clone())));
                assert(entry_views(fields@) =~= self@.fields());
                tagged_table(10, fields)
            },
            WebSocketMessagePayload::RequestPostRoomSdpAnswer { sdp } => {
                fields.push(entry("sdp", Value::from_string(sdp.clone())));
                assert(entry_views(fields@) =~= self@.fields());
                tagged_table(11, fields)
            },
            WebSocketMessagePayload::RequestPostRoomIceCandidate {
                candidate,
                sdp_mid,
                sdp_m_line_index,
                username_fragment,
            } => {
                fields.push(entry("candidate", Value::from_string(candidate.clone())));
                fields.push(entry("sdp_mid", Value::from_optional_string(sdp_mid.clone())));
                let index = match sdp_m_line_index {
                    Some(index) => Value::from_u64(*index as u64),
                    None => Value::Nil,
                };
                fields.push(entry("sdp_m_line_index", index));
                fields.push(
                    entry(
                        "username_fragment",
                        Value::from_optional_string(username_fragment.clone()),
                    ),
                );
                assert(entry_views(fields@) =~= self@.fields());
                tagged_table(12, fields)
            },
            WebSocketMessagePayload::Response { code, message } => {
                fields.push(entry("code", Value::from_u64(*code as u64)));
                fields.push(entry("message", Value::from_string(message.clone())));
                assert(entry_views(fields@) =~= self@.fields());
                tagged_table(20, fields)
            },
            WebSocketMessagePayload::ResponseSession { token } => {
                fields.push(entry("token", Value::from_string(token.clone())));
                assert(entry_views(fields@) =~= self@.fields());
                tagged_table(21, fields)
            },
            WebSocketMessagePayload::ResponseRoomRtcOffer { sdp } => {
                fields.push(entry("sdp", Value::from_string(sdp.clone())));
                assert(entry_views(fields@) =~= self@.fields());
                tagged_table(22, fields)
            },
            WebSocketMessagePayload::Authorize { token } => {
                fields.push(entry("token", Value::from_string(token.clone())));
                assert(entry_views(fields@) =~= self@.fields());
                tagged_table(30, fields)
            },
            WebSocketMessagePayload::Empty => {
                assert(entry_views(fields@) =~= self@.fields());
                tagged_table(0, fields)
            },
        }
    }

    fn from_entries(entries: &Vec<(Value, Value)>) -> (result: Self)
        requires
            entries@.len() > 0,
        ensures
            result@ == WebSocketMessagePayloadView::from_entries(entry_views(entries@)),
    {
        let Some(tag) = entries[0].1.as_integer(
            -0x8000_0000_0000_0000_0000_0000_0000_0000,
            0x7fff_ffff_ffff_ffff_ffff_ffff_ffff_ffff,
        ) else {
            return WebSocketMessagePayload::Empty;
        };
        if Value::lookup(entries, 1, "t").is_some() {
            return WebSocketMessagePayload::Empty;
        }
        if tag == 10 {
            match (get_text(entries, 1, "room_name"), get_text(entries, 1, "username")) {
                (Some(room_name), Some(username)) => {
                    WebSocketMessagePayload::RequestGetRoomSdpOffer { room_name, username }
                },
                _ => WebSocketMessagePayload::Empty,
            }
        } else if tag == 11 {
            match get_text(entries, 1, "sdp") {
                Some(sdp) => WebSocketMessagePayload::RequestPostRoomSdpAnswer { sdp },
                None => WebSocketMessagePayload::Empty,
            }
        } else if tag == 12 {
            match (
                get_text(entries, 1, "candidate"),
                get_optional_text(entries, 1, "sdp_mid"),
                get_optional_integer(entries, 1, "sdp_m_line_index", 0, 65535),
                get_optional_text(entries, 1, "username_fragment"),
            ) {
                (Some(candidate), Some(sdp_mid), Some(index), Some(username_fragment)) => {
                    WebSocketMessagePayload::RequestPostRoomIceCandidate {
                        candidate,
                        sdp_mid,
                        sdp_m_line_index: match index {
                            Some(index) => Some(index as u16),
                            None => None,
                        },
                        username_fragment,
                    }
                },
                _ => WebSocketMessagePayload::Empty,
            }
        } else if tag == 20 {
            match (get_integer(entries, 1, "code", 0, 4294967295), get_text(entries, 1, "message")) {
                (Some(code), Some(message)) => WebSocketMessagePayload::Response {
                    code: code as u32,
                    message,
                },
                _ => WebSocketMessagePayload::Empty,
            }
        } else if tag == 21 {
            match get_text(entries, 1, "token") {
                Some(token) => WebSocketMessagePayload::ResponseSession { token },
                None => WebSocketMessagePayload::Empty,
            }
        } else if tag == 22 {
            match get_text(entries, 1, "sdp") {
                Some(sdp) => WebSocketMessagePayload::ResponseRoomRtcOffer { sdp },
                None => WebSocketMessagePayload::Empty,
            }
        } else if tag == 30 {
            match get_text(entries, 1, "token") {
                Some(token) => WebSocketMessagePayload::Authorize { token },
                None => WebSocketMessagePayload::Empty,
            }
        } else {
            WebSocketMessagePayload::Empty
        }
    }

    /// The body that a value read from the wire stands for.
    pub fn from_value(value: &Value) -> (result: Result<Self, DecodeError>)
        ensures
            match result {
                Ok(payload) => WebSocketMessagePayloadView::from_value(value@) == Ok::<
                    WebSocketMessagePayloadView,
                    DecodeError,
                >(payload@),
                Err(e) => WebSocketMessagePayloadView::from_value(value@) == Err::<
                    WebSocketMessagePayloadView,
                    DecodeError,
                >(e),
            },
    {
        let Some(entries) = value.as_entries() else {
            return Err(DecodeError::NotAMap);
        };
        if entries.len() == 0 {
            return Err(DecodeError::NoElements);
        }
        Ok(WebSocketMessagePayload::from_entries(entries))
    }
}

/// The names of the fields are what they are written as.
pub proof fn lemma_field_names()
    ensures
        "t"@.len() == 1,
        "room_name"@.len() == 9,
        "username"@.len() == 8,
        "sdp"@.len() == 3,
        "candidate"@.len() == 9,
        "sdp_mid"@.len() == 7,
        "sdp_m_line_index"@.len() == 16,
        "username_fragment"@.len() == 17,
        "code"@.len() == 4,
        "message"@.len() == 7,
        "token"@.len() == 5,
        "room_name"@[0] == 'r',
        "candidate"@[0] == 'c',
{
    reveal_strlit("t");
    reveal_strlit("room_name");
    reveal_strlit("username");
    reveal_strlit("sdp");
    reveal_strlit("candidate");
    reveal_strlit("sdp_mid");
    reveal_strlit("sdp_m_line_index");
    reveal_strlit("username_fragment");
    reveal_strlit("code");
    reveal_strlit("message");
    reveal_strlit("token");
}

/// Round trip of a body: the value a body is written as is read back as
/// that body, whatever the variant and its fields.
pub proof fn lemma_payload_round_trip(payload: WebSocketMessagePayloadView)
    ensures
        WebSocketMessagePayloadView::from_value(payload.to_value()) == Ok::<
            WebSocketMessagePayloadView,
            DecodeError,
        >(payload),
{
    lemma_field_names();
    reveal_with_fuel(lookup, 6);
    reveal_with_fuel(occurrences, 6);
    let entries = payload.to_value()->Table_0;
    assert(entries.len() > 0);
    assert(entries[0].1 == ValueView::Integer(payload.tag()));
    match payload {
        WebSocketMessagePayloadView::RequestGetRoomSdpOffer { room_name, username } => {
            assert(entries[1] == field("room_name"@, text_value(room_name)));
            assert(entries[2] == field("username"@, text_value(username)));
        },
        WebSocketMessagePayloadView::RequestPostRoomSdpAnswer { sdp } => {
            assert(entries[1] == field("sdp"@, text_value(sdp)));
        },
        WebSocketMessagePayloadView::RequestPostRoomIceCandidate {
            candidate,
            sdp_mid,
            sdp_m_line_index,
            username_fragment,
        } => {
            assert(entries[1] == field("candidate"@, text_value(candidate)));
            assert(entries[2] == field("sdp_mid"@, optional_text_value(sdp_mid)));
            assert(entries[3].0 == text_value("sdp_m_line_index"@));
            assert(entries[4] == field("username_fragment"@, optional_text_value(username_fragment)));
        },
        WebSocketMessagePayloadView::Response { code, message } => {
            assert(entries[1] == field("code"@, ValueView::Integer(code as int)));
            assert(entries[2] == field("message"@, text_value(message)));
        },
        WebSocketMessagePayloadView::ResponseSession { token } => {
            assert(entries[1] == field("token"@, text_value(token)));
        },
        WebSocketMessagePayloadView::ResponseRoomRtcOffer { sdp } => {
            assert(entries[1] == field("sdp"@, text_value(sdp)));
        },
        WebSocketMessagePayloadView::Authorize { token } => {
            assert(entries[1] == field("token"@, text_value(token)));
        },
        WebSocketMessagePayloadView::Empty => {},
    }
}

} // verus!
