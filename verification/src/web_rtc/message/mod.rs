//! What travels on the peer channel and between its actors.

use vstd::prelude::*;
use vstd::string::*;

use crate::codec::bytes::{decode_failure, is_decode_failure, is_encode_failure, pack, packed, unpack, unpacked};
use crate::codec::value::{
    entry,
    entry_views,
    field,
    get_integer,
    integer_field,
    lookup,
    occurrences,
    repeated,
    DecodeError,
    Value,
    ValueView,
};
use crate::error::AppError;
use crate::web_rtc::message::payload::lemma_payload_round_trip;

use crate::services::message::model::{Message, MessageView};
use crate::services::user::model::{User, UserView};
pub use crate::web_rtc::message::payload::{WebRtcMessagePayload, WebRtcMessagePayloadView};

pub mod payload;

verus! {

/// The category of a peer-channel message.
#[derive(Clone, Copy, Debug, PartialEq, Eq, Structural)]
pub enum Opcode {
    HeartBeat,
    Request,
    Response,
    Error,
    /// A push of the server.
    Dispatch,
    /// The first snapshot.
    Hello,
}

impl Default for Opcode {
    fn default() -> (result: Self)
        ensures
            result == Opcode::Response,
    {
        Opcode::Response
    }
}

impl Opcode {
    /// The number that stands for the opcode on the wire.
    pub open spec fn spec_code(self) -> u8 {
        match self {
            Opcode::HeartBeat => 0,
            Opcode::Request => 1,
            Opcode::Response => 2,
            Opcode::Error => 3,
            Opcode::Dispatch => 4,
            Opcode::Hello => 5,
        }
    }

    /// The opcode a wire number stands for, if any.
    pub open spec fn spec_from_code(code: int) -> Option<Opcode> {
        if code == 0 {
            Some(Opcode::HeartBeat)
        } else if code == 1 {
            Some(Opcode::Request)
        } else if code == 2 {
            Some(Opcode::Response)
        } else if code == 3 {
            Some(Opcode::Error)
        } else if code == 4 {
            Some(Opcode::Dispatch)
        } else if code == 5 {
            Some(Opcode::Hello)
        } else {
            None
        }
    }

    /// The number that stands for the opcode on the wire.
    #[verifier::when_used_as_spec(spec_code)]
    pub fn code(self) -> (result: u8)
        ensures
            result == self.spec_code(),
    {
        match self {
            Opcode::HeartBeat => 0,
            Opcode::Request => 1,
            Opcode::Response => 2,
            Opcode::Error => 3,
            Opcode::Dispatch => 4,
            Opcode::Hello => 5,
        }
    }

    /// The opcode a wire number stands for, if any.
    pub fn from_code(code: u64) -> (result: Option<Opcode>)
        ensures
            result == Opcode::spec_from_code(code as int),
    {
        if code == 0 {
            Some(Opcode::HeartBeat)
        } else if code == 1 {
            Some(Opcode::Request)
        } else if code == 2 {
            Some(Opcode::Response)
        } else if code == 3 {
            Some(Opcode::Error)
        } else if code == 4 {
            Some(Opcode::Dispatch)
        } else if code == 5 {
            Some(Opcode::Hello)
        } else {
            None
        }
    }
}

/// The envelope of the peer channel.
#[derive(Debug)]
pub struct WebRtcMessage {
    /// The correlation id; `-1` where the server speaks unasked.
    pub id: i64,
    /// The connection the message belongs to. Never on the wire.
    pub connection_id: i64,
    pub opcode: Opcode,
    pub payload: WebRtcMessagePayload,
}

/// The mathematical value of a [`WebRtcMessage`].
pub ghost struct WebRtcMessageView {
    pub id: i64,
    pub connection_id: i64,
    pub opcode: Opcode,
    pub payload: WebRtcMessagePayloadView,
}

impl View for WebRtcMessage {
    type V = WebRtcMessageView;

    open spec fn view(&self) -> WebRtcMessageView {
        WebRtcMessageView {
            id: self.id,
            connection_id: self.connection_id,
            opcode: self.opcode,
            payload: self.payload@,
        }
    }
}

impl Default for WebRtcMessage {
    fn default() -> (result: Self)
        ensures
            result@ == (WebRtcMessageView {
                id: 0,
                connection_id: 0,
                opcode: Opcode::Response,
                payload: WebRtcMessagePayloadView::Empty,
            }),
    {
        WebRtcMessage {
            id: 0,
            connection_id: 0,
            opcode: Opcode::Response,
            payload: WebRtcMessagePayload::Empty,
        }
    }
}

/// The values of a sequence of peer-channel messages.
pub open spec fn web_rtc_message_views(messages: Seq<WebRtcMessage>) -> Seq<WebRtcMessageView> {
    messages.map_values(|m: WebRtcMessage| m@)
}

/// Tells the peer registry that a connection has started.
#[derive(Clone, Copy, Debug)]
pub struct RegistrationMessage {
    pub connection_id: i64,
}

/// Tells the peer registry that the presence of a user changed.
#[derive(Debug)]
pub struct UserUpdateMessage {
    pub user: User,
    pub room_id: i64,
}

/// The mathematical value of a [`UserUpdateMessage`].
pub ghost struct UserUpdateView {
    pub user: UserView,
    pub room_id: i64,
}

impl View for UserUpdateMessage {
    type V = UserUpdateView;

    open spec fn view(&self) -> UserUpdateView {
        UserUpdateView { user: self.user@, room_id: self.room_id }
    }
}

/// The values of a sequence of presence updates.
pub open spec fn user_update_views(updates: Seq<UserUpdateMessage>) -> Seq<UserUpdateView> {
    updates.map_values(|u: UserUpdateMessage| u@)
}

/// Tells the peer registry that a message was posted.
#[derive(Debug)]
pub struct MessageUpdateMessage {
    pub message: Message,
    pub room_id: i64,
}

/// The mathematical value of a [`MessageUpdateMessage`].
pub ghost struct MessageUpdateView {
    pub message: MessageView,
    pub room_id: i64,
}

impl View for MessageUpdateMessage {
    type V = MessageUpdateView;

    open spec fn view(&self) -> MessageUpdateView {
        MessageUpdateView { message: self.message@, room_id: self.room_id }
    }
}

/// Tells the peer registry that a connection is gone.
#[derive(Clone, Copy, Debug)]
pub struct DisconnectionMessage {
    pub connection_id: i64,
}

/// Hands the answer of the client to a peer connection.
#[derive(Debug)]
pub struct RtcAnswerConnectionMessage {
    pub sdp: String,
}

/// Hands a trickled candidate to a peer connection. Reserved.
#[derive(Debug)]
pub struct RtcCandidateConnectionMessage {
    pub candidate: String,
    pub sdp_mid: Option<String>,
    pub sdp_m_line_index: Option<u16>,
    pub username_fragment: Option<String>,
}

/// Tells a peer connection that its data channel is open.
#[derive(Clone, Copy, Debug)]
pub struct HelloConnectionMessage;

/// Hands a frame read from the data channel to the dispatch of its
/// connection.
#[derive(Debug)]
pub struct SendToServiceHandlerConnectionMessage {
    pub message: WebRtcMessage,
}

/// Tells a peer connection to close.
#[derive(Clone, Copy, Debug)]
pub struct CloseConnectionMessage;

impl WebRtcMessageView {
    /// The envelope on the wire: a map with the correlation id under `i`,
    /// the number of the opcode under `o` and, unless the body is empty,
    /// the body under `p`. The connection id is not part of it.
    pub open spec fn to_value(self) -> ValueView {
        let head = seq![
            field("i"@, ValueView::Integer(self.id as int)),
            field("o"@, ValueView::Integer(self.opcode.spec_code() as int)),
        ];
        if self.payload == WebRtcMessagePayloadView::Empty {
            ValueView::Table(head)
        } else {
            ValueView::Table(head.push(field("p"@, self.payload.to_value())))
        }
    }

    /// The message that a value stands for. It is a map; `i` holds an
    /// integer of 64 bits and `o` the number of an opcode, and none of
    /// `i`, `o` and `p` is given twice, else the envelope is refused. The
    /// body is that under `p`; without `p` it is empty. A body that is
    /// refused makes the message refused. The connection id is 0.
    pub open spec fn from_value(value: ValueView) -> Result<Self, DecodeError> {
        match value {
            ValueView::Table(entries) => {
                let id = integer_field(
                    entries,
                    0,
                    "i"@,
                    -0x8000_0000_0000_0000,
                    0x7fff_ffff_ffff_ffff,
                );
                let code = integer_field(entries, 0, "o"@, 0, 255);
                if id is None || code is None || Opcode::spec_from_code(code->0) is None
                    || repeated(entries, 0, "p"@) {
                    Err(DecodeError::Envelope)
                } else {
                    let payload = match lookup(entries, 0, "p"@) {
                        Some(body) => WebRtcMessagePayloadView::from_value(body),
                        None => Ok(WebRtcMessagePayloadView::Empty),
                    };
                    match payload {
                        Ok(payload) => Ok(
                            WebRtcMessageView {
                                id: id->0 as i64,
                                connection_id: 0,
                                opcode: Opcode::spec_from_code(code->0)->0,
                                payload,
                            },
                        ),
                        Err(e) => Err(e),
                    }
                }
            },
            _ => Err(DecodeError::Envelope),
        }
    }

    /// The message that bytes stand for: that of the value they decode to.
    pub open spec fn from_bytes(bytes: Seq<u8>) -> Option<Self> {
        match unpacked(bytes) {
            Some(value) => match Self::from_value(value) {
                Ok(message) => Some(message),
                Err(_) => None,
            },
            None => None,
        }
    }
}

impl WebRtcMessage {
    /// The envelope as a value to put on the wire.
    pub fn to_value(&self) -> (result: Value)
        ensures
            result@ == self@.to_value(),
    {
        let mut entries: Vec<(Value, Value)> = Vec::new();
        entries.push(entry("i", Value::from_i64(self.id)));
        entries.push(entry("o", Value::from_u64(self.opcode.code() as u64)));
        if !self.payload.is_none() {
            entries.push(entry("p", self.payload.to_value()));
        }
        proof {
            assert(entry_views(entries@) =~= self@.to_value()->Table_0);
        }
        Value::table(entries)
    }

    /// The message that a value read from the wire stands for.
    pub fn from_value(value: &Value) -> (result: Result<Self, DecodeError>)
        ensures
            match result {
                Ok(message) => WebRtcMessageView::from_value(value@) == Ok::<
                    WebRtcMessageView,
                    DecodeError,
                >(message@),
                Err(e) => WebRtcMessageView::from_value(value@) == Err::<
                    WebRtcMessageView,
                    DecodeError,
                >(e),
            },
    {
        let Some(entries) = value.as_entries() else {
            return Err(DecodeError::Envelope);
        };
        let id = get_integer(entries, 0, "i", -0x8000_0000_0000_0000, 0x7fff_ffff_ffff_ffff);
        let code = get_integer(entries, 0, "o", 0, 255);
        let (Some(id), Some(code)) = (id, code) else {
            return Err(DecodeError::Envelope);
        };
        let Some(opcode) = Opcode::from_code(code as u64) else {
            return Err(DecodeError::Envelope);
        };
        let payload = match Value::field(entries, 0, "p") {
            Some(Some(body)) => match WebRtcMessagePayload::from_value(body) {
                Ok(payload) => payload,
                Err(e) => {
                    return Err(e);
                },
            },
            Some(None) => WebRtcMessagePayload::Empty,
            None => {
                return Err(DecodeError::Envelope);
            },
        };
        Ok(WebRtcMessage { id: id as i64, connection_id: 0, opcode, payload })
    }

    /// The bytes of the message.
    pub fn encode(&self) -> (result: Result<Vec<u8>, AppError>)
        ensures
            match result {
                Ok(bytes) => packed(self@.to_value()) == Some(bytes@),
                Err(e) => packed(self@.to_value()) is None && is_encode_failure(e),
            },
    {
        pack(&self.to_value())
    }

    /// The message that `bytes` stand for, or the failure to decode them.
    pub fn decode(bytes: &[u8]) -> (result: Result<Self, AppError>)
        ensures
            match result {
                Ok(message) => WebRtcMessageView::from_bytes(bytes@) == Some(message@),
                Err(e) => WebRtcMessageView::from_bytes(bytes@) is None && is_decode_failure(e),
            },
    {
        let value = match unpack(bytes) {
            Ok(value) => value,
            Err(e) => {
                return Err(e);
            },
        };
        match WebRtcMessage::from_value(&value) {
            Ok(message) => Ok(message),
            Err(e) => Err(decode_failure(e.description())),
        }
    }
}

/// Round trip of a message: the value a message is written as is read
/// back as that message, with its correlation id, its opcode and its body,
/// an empty body included. The connection id, which is not written, is
/// read as 0.
pub proof fn lemma_message_round_trip(message: WebRtcMessageView)
    ensures
        WebRtcMessageView::from_value(message.to_value()) == Ok::<WebRtcMessageView, DecodeError>(
            WebRtcMessageView { connection_id: 0, ..message },
        ),
{
    reveal_strlit("i");
    reveal_strlit("o");
    reveal_strlit("p");
    reveal_with_fuel(lookup, 4);
    reveal_with_fuel(occurrences, 4);
    assert("i"@[0] == 'i' && "o"@[0] == 'o' && "p"@[0] == 'p');
    assert("i"@ != "o"@ && "i"@ != "p"@ && "o"@ != "p"@);
    lemma_payload_round_trip(message.payload);
    let entries = message.to_value()->Table_0;
    assert(entries[0] == field("i"@, ValueView::Integer(message.id as int)));
    assert(entries[1] == field("o"@, ValueView::Integer(message.opcode.spec_code() as int)));
    assert(Opcode::spec_from_code(message.opcode.spec_code() as int) == Some(message.opcode));
    assert(lookup(entries, 0, "i"@) == Some(ValueView::Integer(message.id as int)));
    assert(lookup(entries, 0, "o"@) == Some(
        ValueView::Integer(message.opcode.spec_code() as int),
    ));
    assert(occurrences(entries, 0, "i"@) == 1);
    assert(occurrences(entries, 0, "o"@) == 1);
    assert(occurrences(entries, 0, "p"@) <= 1);
    assert(integer_field(entries, 0, "i"@, -0x8000_0000_0000_0000, 0x7fff_ffff_ffff_ffff) == Some(
        message.id as int,
    ));
    assert(integer_field(entries, 0, "o"@, 0, 255) == Some(message.opcode.spec_code() as int));
    if message.payload != WebRtcMessagePayloadView::Empty {
        assert(entries[2] == field("p"@, message.payload.to_value()));
        assert(lookup(entries, 0, "p"@) == Some(message.payload.to_value()));
    } else {
        assert(entries.len() == 2);
        assert(lookup(entries, 0, "p"@) is None);
    }
}

} // verus!
