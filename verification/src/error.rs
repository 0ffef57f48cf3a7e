//! Application errors, the fixed catalogue they are drawn from, and the close
//! codes of the control channel.

use vstd::prelude::*;
use vstd::string::*;

verus! {

/// Where an error came from.
#[derive(Clone, Copy, Debug, PartialEq, Eq, Structural)]
pub enum AppErrorKind {
    /// A message could not be handed to another actor.
    Mailbox,
    /// A frame could not be decoded.
    Decode,
    /// A message could not be encoded.
    Encode,
    /// The domain store refused an operation.
    Store,
    /// The peer data channel failed.
    PeerData,
    /// The peer session failed.
    Peer,
    /// Anything else.
    Other,
}

/// What the domain store reports when it refuses an operation.
#[derive(Clone, Copy, Debug, PartialEq, Eq, Structural)]
pub enum StoreError {
    /// No record has the key that was asked for.
    RecordNotFound,
    /// A record with the same unique key is already stored.
    DuplicateKey,
}

/// An error as the handlers pass it around: a status class, an application
/// code, a message and the origin.
#[derive(Debug)]
pub struct AppError {
    pub http_code: u16,
    pub json_code: u32,
    pub message: String,
    pub kind: AppErrorKind,
}

/// The mathematical value of an [`AppError`].
pub ghost struct AppErrorView {
    pub http_code: u16,
    pub json_code: u32,
    pub message: Seq<char>,
    pub kind: AppErrorKind,
}

impl View for AppError {
    type V = AppErrorView;

    open spec fn view(&self) -> AppErrorView {
        AppErrorView {
            http_code: self.http_code,
            json_code: self.json_code,
            message: self.message@,
            kind: self.kind,
        }
    }
}

/// The catalogue of errors with a fixed status, code and message. Each entry
/// may carry the origin of the failure.
#[derive(Clone, Copy, Debug)]
pub enum AppErrorTemplate {
    BadRequest(Option<AppErrorKind>),
    Unauthorized(Option<AppErrorKind>),
    NotFound(Option<AppErrorKind>),
    Conflict(Option<AppErrorKind>),
    InternalServerError(Option<AppErrorKind>),
    RoomNameTooShort(Option<AppErrorKind>),
    RoomNameTooLong(Option<AppErrorKind>),
    UsernameTooShort(Option<AppErrorKind>),
    UsernameTooLong(Option<AppErrorKind>),
    MessageContentTooShort(Option<AppErrorKind>),
    MessageContentTooLong(Option<AppErrorKind>),
    UsernameTaken(Option<AppErrorKind>),
    WebRtcOfferNotRequested(Option<AppErrorKind>),
}

impl AppErrorTemplate {
    /// The status class of the entry.
    pub open spec fn spec_http_code(self) -> u16 {
        match self {
            AppErrorTemplate::Unauthorized(_) => 401,
            AppErrorTemplate::NotFound(_) => 404,
            AppErrorTemplate::Conflict(_) => 409,
            AppErrorTemplate::InternalServerError(_) => 500,
            _ => 400,
        }
    }

    /// The application code of the entry; the status class where it has none
    /// of its own.
    pub open spec fn spec_json_code(self) -> u32 {
        match self {
            AppErrorTemplate::BadRequest(_) => 400,
            AppErrorTemplate::Unauthorized(_) => 401,
            AppErrorTemplate::NotFound(_) => 404,
            AppErrorTemplate::Conflict(_) => 409,
            AppErrorTemplate::InternalServerError(_) => 500,
            AppErrorTemplate::RoomNameTooShort(_) => 3001,
            AppErrorTemplate::RoomNameTooLong(_) => 3002,
            AppErrorTemplate::UsernameTooShort(_) => 3003,
            AppErrorTemplate::UsernameTooLong(_) => 3004,
            AppErrorTemplate::MessageContentTooShort(_) => 3005,
            AppErrorTemplate::MessageContentTooLong(_) => 3006,
            AppErrorTemplate::UsernameTaken(_) => 4001,
            AppErrorTemplate::WebRtcOfferNotRequested(_) => 4002,
        }
    }

    /// The message of the entry.
    pub open spec fn spec_message(self) -> Seq<char> {
        match self {
            AppErrorTemplate::BadRequest(_) => "Bad request"@,
            AppErrorTemplate::Unauthorized(_) => "Unauthorized"@,
            AppErrorTemplate::NotFound(_) => "Not found"@,
            AppErrorTemplate::Conflict(_) => "Method not allowed"@,
            AppErrorTemplate::InternalServerError(_) => "Internal server error"@,
            AppErrorTemplate::RoomNameTooShort(_) => "Room name is too short"@,
            AppErrorTemplate::RoomNameTooLong(_) => "Room name is too long"@,
            AppErrorTemplate::UsernameTooShort(_) => "Username is too short"@,
            AppErrorTemplate::UsernameTooLong(_) => "Username is too long"@,
            AppErrorTemplate::MessageContentTooShort(_) => "Message content is too short"@,
            AppErrorTemplate::MessageContentTooLong(_) => "Message content is too long"@,
            AppErrorTemplate::UsernameTaken(_) => "The username is taken"@,
            AppErrorTemplate::WebRtcOfferNotRequested(_) => "WebRTC offer wasn't requested"@,
        }
    }

    /// The origin the entry carries, if any.
    pub open spec fn spec_origin(self) -> Option<AppErrorKind> {
        match self {
            AppErrorTemplate::BadRequest(k) => k,
            AppErrorTemplate::Unauthorized(k) => k,
            AppErrorTemplate::NotFound(k) => k,
            AppErrorTemplate::Conflict(k) => k,
            AppErrorTemplate::InternalServerError(k) => k,
            AppErrorTemplate::RoomNameTooShort(k) => k,
            AppErrorTemplate::RoomNameTooLong(k) => k,
            AppErrorTemplate::UsernameTooShort(k) => k,
            AppErrorTemplate::UsernameTooLong(k) => k,
            AppErrorTemplate::MessageContentTooShort(k) => k,
            AppErrorTemplate::MessageContentTooLong(k) => k,
            AppErrorTemplate::UsernameTaken(k) => k,
            AppErrorTemplate::WebRtcOfferNotRequested(k) => k,
        }
    }

    /// The error the entry stands for.
    pub open spec fn spec_error(self) -> AppErrorView {
        AppErrorView {
            http_code: self.spec_http_code(),
            json_code: self.spec_json_code(),
            message: self.spec_message(),
            kind: match self.spec_origin() {
                Some(kind) => kind,
                None => AppErrorKind::Other,
            },
        }
    }
}

impl AppError {
    /// Builds an error. Without an application code the status class is used
    /// as the code; without an origin the origin is `Other`.
    pub fn new(
        http_code: u16,
        json_code: Option<u32>,
        message: String,
        error: Option<AppErrorKind>,
    ) -> (result: AppError)
        ensures
            result.http_code == http_code,
            result.json_code == match json_code {
                Some(code) => code,
                None => http_code as u32,
            },
            result.message@ == message@,
            result.kind == match error {
                Some(kind) => kind,
                None => AppErrorKind::Other,
            },
    {
        let code = match json_code {
            Some(code) => code,
            None => http_code as u32,
        };
        let kind = match error {
            Some(kind) => kind,
            None => AppErrorKind::Other,
        };
        AppError { http_code, json_code: code, message, kind }
    }

    /// The message a client may see: the error's own message below status
    /// 500, a fixed text from 500 on.
    pub fn get_safe_message(&self) -> (result: String)
        ensures
            result@ == self@.safe_message(),
    {
        if self.http_code < 500 {
            self.message.clone()
        } else {
            String::from_str("Internal server error")
        }
    }

    /// The error a catalogue entry stands for.
    pub fn from_template(template: AppErrorTemplate) -> (result: AppError)
        ensures
            result@ == template.spec_error(),
    {
        match template {
            AppErrorTemplate::BadRequest(kind) => AppError::new(
                400,
                None,
                String::from_str("Bad request"),
                kind,
            ),
            AppErrorTemplate::Unauthorized(kind) => AppError::new(
                401,
                None,
                String::from_str("Unauthorized"),
                kind,
            ),
            AppErrorTemplate::NotFound(kind) => AppError::new(
                404,
                None,
                String::from_str("Not found"),
                kind,
            ),
            AppErrorTemplate::Conflict(kind) => AppError::new(
                409,
                None,
                String::from_str("Method not allowed"),
                kind,
            ),
            AppErrorTemplate::InternalServerError(kind) => AppError::new(
                500,
                None,
                String::from_str("Internal server error"),
                kind,
            ),
            AppErrorTemplate::RoomNameTooShort(kind) => AppError::new(
                400,
                Some(3001),
                String::from_str("Room name is too short"),
                kind,
            ),
            AppErrorTemplate::RoomNameTooLong(kind) => AppError::new(
                400,
                Some(3002),
                String::from_str("Room name is too long"),
                kind,
            ),
            AppErrorTemplate::UsernameTooShort(kind) => AppError::new(
                400,
                Some(3003),
                String::from_str("Username is too short"),
                kind,
            ),
            AppErrorTemplate::UsernameTooLong(kind) => AppError::new(
                400,
                Some(3004),
                String::from_str("Username is too long"),
                kind,
            ),
            AppErrorTemplate::MessageContentTooShort(kind) => AppError::new(
                400,
                Some(3005),
                String::from_str("Message content is too short"),
                kind,
            ),
            AppErrorTemplate::MessageContentTooLong(kind) => AppError::new(
                400,
                Some(3006),
                String::from_str("Message content is too long"),
                kind,
            ),
            AppErrorTemplate::UsernameTaken(kind) => AppError::new(
                400,
                Some(4001),
                String::from_str("The username is taken"),
                kind,
            ),
            AppErrorTemplate::WebRtcOfferNotRequested(kind) => AppError::new(
                400,
                Some(4002),
                String::from_str("WebRTC offer wasn't requested"),
                kind,
            ),
        }
    }

    /// The error a refusal of the domain store becomes: a missing record is
    /// `NotFound`, a duplicate key is `Conflict`, both with origin `Store`.
    pub fn from_store_error(error: StoreError) -> (result: AppError)
        ensures
            result@ == AppError::spec_from_store_error(error),
    {
        match error {
            StoreError::RecordNotFound => AppError::from_template(
                AppErrorTemplate::NotFound(Some(AppErrorKind::Store)),
            ),
            StoreError::DuplicateKey => AppError::from_template(
                AppErrorTemplate::Conflict(Some(AppErrorKind::Store)),
            ),
        }
    }

    pub open spec fn spec_from_store_error(error: StoreError) -> AppErrorView {
        match error {
            StoreError::RecordNotFound => AppErrorTemplate::NotFound(
                Some(AppErrorKind::Store),
            ).spec_error(),
            StoreError::DuplicateKey => AppErrorTemplate::Conflict(
                Some(AppErrorKind::Store),
            ).spec_error(),
        }
    }
}

impl AppErrorView {
    /// The message a client may see.
    pub open spec fn safe_message(self) -> Seq<char> {
        if self.http_code < 500 {
            self.message
        } else {
            "Internal server error"@
        }
    }
}

/// Why the server closes a control connection on a protocol violation.
#[derive(Clone, Copy, Debug, PartialEq, Eq, Structural)]
pub enum WebSocketCloseError {
    Unknown,
    Opcode,
    InvalidMessage,
    NotAuthenticated,
    AuthenticationFailed,
    AlreadyAuthenticated,
}

impl WebSocketCloseError {
    pub open spec fn spec_code(self) -> u16 {
        match self {
            WebSocketCloseError::Unknown => 4000,
            WebSocketCloseError::Opcode => 4001,
            WebSocketCloseError::InvalidMessage => 4002,
            WebSocketCloseError::NotAuthenticated => 4003,
            WebSocketCloseError::AuthenticationFailed => 4004,
            WebSocketCloseError::AlreadyAuthenticated => 4005,
        }
    }

    pub open spec fn spec_description(self) -> Seq<char> {
        match self {
            WebSocketCloseError::Unknown => "Unknown error"@,
            WebSocketCloseError::Opcode => "Opcode not allowed"@,
            WebSocketCloseError::InvalidMessage => "Invalid message"@,
            WebSocketCloseError::NotAuthenticated => "Not authenticated"@,
            WebSocketCloseError::AuthenticationFailed => "Authentication failed"@,
            WebSocketCloseError::AlreadyAuthenticated => "Already authenticated"@,
        }
    }

    /// The close code sent to the client.
    #[verifier::when_used_as_spec(spec_code)]
    pub fn code(self) -> (result: u16)
        ensures
            result == self.spec_code(),
    {
        match self {
            WebSocketCloseError::Unknown => 4000,
            WebSocketCloseError::Opcode => 4001,
            WebSocketCloseError::InvalidMessage => 4002,
            WebSocketCloseError::NotAuthenticated => 4003,
            WebSocketCloseError::AuthenticationFailed => 4004,
            WebSocketCloseError::AlreadyAuthenticated => 4005,
        }
    }

    /// The description sent with the close code.
    pub fn description(self) -> (result: String)
        ensures
            result@ == self.spec_description(),
    {
        match self {
            WebSocketCloseError::Unknown => String::from_str("Unknown error"),
            WebSocketCloseError::Opcode => String::from_str("Opcode not allowed"),
            WebSocketCloseError::InvalidMessage => String::from_str("Invalid message"),
            WebSocketCloseError::NotAuthenticated => String::from_str("Not authenticated"),
            WebSocketCloseError::AuthenticationFailed => String::from_str(
                "Authentication failed",
            ),
            WebSocketCloseError::AlreadyAuthenticated => String::from_str(
                "Already authenticated",
            ),
        }
    }
}

} // verus!
