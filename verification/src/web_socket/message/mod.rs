//! What travels on the control channel and between its actors.

use vstd::prelude::*;
use vstd::string::*;

use crate::codec::bytes::{decode_failure, is_decode_failure, is_encode_failure, pack, packed, unpack, unpacked};
use crate::codec::value::{
    entry,
    entry_views,
    field,
    get_integer,
    integer_field,
    lookup,
    occurrences,
    repeated,
    DecodeError,
    Value,
    ValueView,
};
use crate::error::AppError;

use crate::web_socket::message::payload::lemma_payload_round_trip;
pub use crate::web_socket::message::payload::{
    WebSocketMessagePayload,
    WebSocketMessagePayloadView,
};

pub mod payload;

verus! {

/// The category of a control-channel message.
#[derive(Clone, Copy, Debug, PartialEq, Eq, Structural)]
pub enum Opcode {
    HeartBeat,
    Request,
    Response,
    Error,
    Authorize,
}

impl Default for Opcode {
    fn default() -> (result: Self)
        ensures
            result == Opcode::Response,
    {
        Opcode::Response
    }
}

impl Opcode {
    /// The number that stands for the opcode on the wire.
    pub open spec fn spec_code(self) -> u8 {
        match self {
            Opcode::HeartBeat => 0,
            Opcode::Request => 1,
            Opcode::Response => 2,
            Opcode::Error => 3,
            Opcode::Authorize => 4,
        }
    }

    /// The opcode a wire number stands for, if any.
    pub open spec fn spec_from_code(code: int) -> Option<Opcode> {
        if code == 0 {
            Some(Opcode::HeartBeat)
        } else if code == 1 {
            Some(Opcode::Request)
        } else if code == 2 {
            Some(Opcode::Response)
        } else if code == 3 {
            Some(Opcode::Error)
        } else if code == 4 {
            Some(Opcode::Authorize)
        } else {
            None
        }
    }

    /// The number that stands for the opcode on the wire.
    #[verifier::when_used_as_spec(spec_code)]
    pub fn code(self) -> (result: u8)
        ensures
            result == self.spec_code(),
    {
        match self {
            Opcode::HeartBeat => 0,
            Opcode::Request => 1,
            Opcode::Response => 2,
            Opcode::Error => 3,
            Opcode::Authorize => 4,
        }
    }

    /// The opcode a wire number stands for, if any.
    pub fn from_code(code: u64) -> (result: Option<Opcode>)
        ensures
            result == Opcode::spec_from_code(code as int),
    {
        if code == 0 {
            Some(Opcode::HeartBeat)
        } else if code == 1 {
            Some(Opcode::Request)
        } else if code == 2 {
            Some(Opcode::Response)
        } else if code == 3 {
            Some(Opcode::Error)
        } else if code == 4 {
            Some(Opcode::Authorize)
        } else {
            None
        }
    }
}

/// The verb of a request. Reserved.
#[derive(Clone, Copy, Debug, PartialEq, Eq, Structural)]
pub enum Method {
    Get,
    Post,
}

/// The envelope of the control channel.
#[derive(Debug)]
pub struct WebSocketMessage {
    /// The correlation id; `-1` where the server speaks unasked.
    pub id: i64,
    /// The connection the message belongs to. Never on the wire.
    pub connection_id: i64,
    pub opcode: Opcode,
    pub payload: WebSocketMessagePayload,
}

/// The mathematical value of a [`WebSocketMessage`].
pub ghost struct WebSocketMessageView {
    pub id: i64,
    pub connection_id: i64,
    pub opcode: Opcode,
    pub payload: WebSocketMessagePayloadView,
}

impl View for WebSocketMessage {
    type V = WebSocketMessageView;

    open spec fn view(&self) -> WebSocketMessageView {
        WebSocketMessageView {
            id: self.id,
            connection_id: self.connection_id,
            opcode: self.opcode,
            payload: self.payload@,
        }
    }
}

impl Default for WebSocketMessage {
    fn default() -> (result: Self)
        ensures
            result@ == (WebSocketMessageView {
                id: 0,
                connection_id: 0,
                opcode: Opcode::Response,
                payload: WebSocketMessagePayloadView::Empty,
            }),
    {
        WebSocketMessage {
            id: 0,
            connection_id: 0,
            opcode: Opcode::Response,
            payload: WebSocketMessagePayload::Empty,
        }
    }
}

/// Asks the control registry to register a connection that has just
/// authorized, and to answer it with the token of its session.
#[derive(Debug)]
pub struct AuthorizationMessage {
    pub id: i64,
    pub connection_id: i64,
    pub token: String,
}

/// Tells the control registry that a connection is gone.
#[derive(Clone, Copy, Debug)]
pub struct DisconnectionMessage {
    pub connection_id: i64,
    pub registered_room_id: Option<i64>,
}

/// Tells a control connection to stop.
#[derive(Clone, Copy, Debug)]
pub struct CloseConnectionMessage;

impl WebSocketMessageView {
    /// The envelope on the wire: a map with the correlation id under `i`,
    /// the number of the opcode under `o` and, unless the body is empty,
    /// the body under `p`. The connection id is not part of it.
    pub open spec fn to_value(self) -> ValueView {
        let head = seq![
            field("i"@, ValueView::Integer(self.id as int)),
            field("o"@, ValueView::Integer(self.opcode.spec_code() as int)),
        ];
        if self.payload == WebSocketMessagePayloadView::Empty {
            ValueView::Table(head)
        } else {
            ValueView::Table(head.push(field("p"@, self.payload.to_value())))
        }
    }

    /// The message that a value stands for. It is a map; `i` holds an
    /// integer of 64 bits and `o` the number of an opcode, and none of
    /// `i`, `o` and `p` is given twice, else the envelope is refused. The
    /// body is that under `p`; without `p` it is empty. A body that is
    /// refused makes the message refused. The connection id is 0.
    pub open spec fn from_value(value: ValueView) -> Result<Self, DecodeError> {
        match value {
            ValueView::Table(entries) => {
                let id = integer_field(
                    entries,
                    0,
                    "i"@,
                    -0x8000_0000_0000_0000,
                    0x7fff_ffff_ffff_ffff,
                );
                let code = integer_field(entries, 0, "o"@, 0, 255);
                if id is None || code is None || Opcode::spec_from_code(code->0) is None
                    || repeated(entries, 0, "p"@) {
                    Err(DecodeError::Envelope)
                } else {
                    let payload = match lookup(entries, 0, "p"@) {
                        Some(body) => WebSocketMessagePayloadView::from_value(body),
                        None => Ok(WebSocketMessagePayloadView::Empty),
                    };
                    match payload {
                        Ok(payload) => Ok(
                            WebSocketMessageView {
                                id: id->0 as i64,
                                connection_id: 0,
                                opcode: Opcode::spec_from_code(code->0)->0,
                                payload,
                            },
                        ),
                        Err(e) => Err(e),
                    }
                }
            },
            _ => Err(DecodeError::Envelope),
        }
    }

    /// The message that bytes stand for: that of the value they decode to.
    pub open spec fn from_bytes(bytes: Seq<u8>) -> Option<Self> {
        match unpacked(bytes) {
            Some(value) => match Self::from_value(value) {
                Ok(message) => Some(message),
                Err(_) => None,
            },
            None => None,
        }
    }
}

impl WebSocketMessage {
    /// The envelope as a value to put on the wire.
    pub fn to_value(&self) -> (result: Value)
        ensures
            result@ == self@.to_value(),
    {
        let mut entries: Vec<(Value, Value)> = Vec::new();
        entries.push(entry("i", Value::from_i64(self.id)));
        entries.push(entry("o", Value::from_u64(self.opcode.code() as u64)));
        if !self.payload.is_none() {
            entries.push(entry("p", self.payload.to_value()));
        }
        proof {
            assert(entry_views(entries@) =~= self@.to_value()->Table_0);
        }
        Value::table(entries)
    }

    /// The message that a value read from the wire stands for.
    pub fn from_value(value: &Value) -> (result: Result<Self, DecodeError>)
        ensures
            match result {
                Ok(message) => WebSocketMessageView::from_value(value@) == Ok::<
                    WebSocketMessageView,
                    DecodeError,
                >(message@),
                Err(e) => WebSocketMessageView::from_value(value@) == Err::<
                    WebSocketMessageView,
                    DecodeError,
                >(e),
            },
    {
        let Some(entries) = value.as_entries() else {
            return Err(DecodeError::Envelope);
        };
        let id = get_integer(entries, 0, "i", -0x8000_0000_0000_0000, 0x7fff_ffff_ffff_ffff);
        let code = get_integer(entries, 0, "o", 0, 255);
        let (Some(id), Some(code)) = (id, code) else {
            return Err(DecodeError::Envelope);
        };
        let Some(opcode) = Opcode::from_code(code as u64) else {
            return Err(DecodeError::Envelope);
        };
        let payload = match Value::field(entries, 0, "p") {
            Some(Some(body)) => match WebSocketMessagePayload::from_value(body) {
                Ok(payload) => payload,
                Err(e) => {
                    return Err(e);
                },
            },
            Some(None) => WebSocketMessagePayload::Empty,
            None => {
                return Err(DecodeError::Envelope);
            },
        };
        Ok(WebSocketMessage { id: id as i64, connection_id: 0, opcode, payload })
    }

    /// The bytes of the message.
    pub fn encode(&self) -> (result: Result<Vec<u8>, AppError>)
        ensures
            match result {
                Ok(bytes) => packed(self@.to_value()) == Some(bytes@),
                Err(e) => packed(self@.to_value()) is None && is_encode_failure(e),
            },
    {
        pack(&self.to_value())
    }

    /// The message that `bytes` stand for, or the failure to decode them.
    pub fn decode(bytes: &[u8]) -> (result: Result<Self, AppError>)
        ensures
            match result {
                Ok(message) => WebSocketMessageView::from_bytes(bytes@) == Some(message@),
                Err(e) => WebSocketMessageView::from_bytes(bytes@) is None && is_decode_failure(e),
            },
    {
        let value = match unpack(bytes) {
            Ok(value) => value,
            Err(e) => {
                return Err(e);
            },
        };
        match WebSocketMessage::from_value(&value) {
            Ok(message) => Ok(message),
            Err(e) => Err(decode_failure(e.description())),
        }
    }
}

/// Round trip of a message: the value a message is written as is read
/// back as that message, with its correlation id, its opcode and its body,
/// an empty body included. The connection id, which is not written, is
/// read as 0.
pub proof fn lemma_message_round_trip(message: WebSocketMessageView)
    ensures
        WebSocketMessageView::from_value(message.to_value()) == Ok::<
            WebSocketMessageView,
            DecodeError,
        >(WebSocketMessageView { connection_id: 0, ..message }),
{
    reveal_strlit("i");
    reveal_strlit("o");
    reveal_strlit("p");
    reveal_with_fuel(lookup, 4);
    reveal_with_fuel(occurrences, 4);
    assert("i"@[0] == 'i' && "o"@[0] == 'o' && "p"@[0] == 'p');
    assert("i"@ != "o"@ && "i"@ != "p"@ && "o"@ != "p"@);
    lemma_payload_round_trip(message.payload);
    let entries = message.to_value()->Table_0;
    assert(entries[0] == field("i"@, ValueView::Integer(message.id as int)));
    assert(entries[1] == field("o"@, ValueView::Integer(message.opcode.spec_code() as int)));
    assert(Opcode::spec_from_code(message.opcode.spec_code() as int) == Some(message.opcode));
    assert(lookup(entries, 0, "i"@) == Some(ValueView::Integer(message.id as int)));
    assert(lookup(entries, 0, "o"@) == Some(
        ValueView::Integer(message.opcode.spec_code() as int),
    ));
    assert(occurrences(entries, 0, "i"@) == 1);
    assert(occurrences(entries, 0, "o"@) == 1);
    assert(occurrences(entries, 0, "p"@) <= 1);
    assert(integer_field(entries, 0, "i"@, -0x8000_0000_0000_0000, 0x7fff_ffff_ffff_ffff) == Some(
        message.id as int,
    ));
    assert(integer_field(entries, 0, "o"@, 0, 255) == Some(message.opcode.spec_code() as int));
    if message.payload != WebSocketMessagePayloadView::Empty {
        assert(entries[2] == field("p"@, message.payload.to_value()));
        assert(lookup(entries, 0, "p"@) == Some(message.payload.to_value()));
    } else {
        assert(entries.len() == 2);
        assert(lookup(entries, 0, "p"@) is None);
    }
}

} // verus!
