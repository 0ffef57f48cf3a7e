//! The bodies of peer-channel messages.

use vstd::prelude::*;
use vstd::string::*;

use crate::codec::value::{
    entry,
    entry_views,
    field,
    get_integer,
    get_text,
    integer_field,
    item_views,
    lookup,
    occurrences,
    single,
    tagged,
    tagged_table,
    text_field,
    text_value,
    DecodeError,
    Value,
    ValueView,
};
use crate::services::message::model::{MessagePublic, MessagePublicView};
use crate::services::user::model::{UserPublic, UserPublicView, UserStatus};

verus! {

/// The values of a sequence of public users.
pub open spec fn user_public_views(users: Seq<UserPublic>) -> Seq<UserPublicView> {
    users.map_values(|u: UserPublic| u@)
}

/// The values of a sequence of public messages.
pub open spec fn message_public_views(messages: Seq<MessagePublic>) -> Seq<MessagePublicView> {
    messages.map_values(|m: MessagePublic| m@)
}

/// The body of a peer-channel message. Each variant has a tag: the number
/// it is known by on the wire.
#[derive(Debug)]
#[allow(inconsistent_fields)]
pub enum WebRtcMessagePayload {
    /// Tag 10. Posts a chat message.
    RequestPostMessage { content: String },
    /// Tag 20. A code and a message, as an error reply carries them.
    Response { code: u32, message: String },
    /// Tag 40. The presence of a user changed.
    DispatchUserUpdate { user: UserPublic },
    /// Tag 41. A message was posted.
    DispatchMessageUpdate { message: MessagePublic },
    /// Tag 50. The state of the room when the channel opens.
    Hello { user_id: String, users: Vec<UserPublic>, messages: Vec<MessagePublic> },
    /// Tag 0. No body.
    Empty,
}

/// The mathematical value of a [`WebRtcMessagePayload`].
#[allow(inconsistent_fields)]
pub ghost enum WebRtcMessagePayloadView {
    RequestPostMessage { content: Seq<char> },
    Response { code: u32, message: Seq<char> },
    DispatchUserUpdate { user: UserPublicView },
    DispatchMessageUpdate { message: MessagePublicView },
    Hello { user_id: Seq<char>, users: Seq<UserPublicView>, messages: Seq<MessagePublicView> },
    Empty,
}

impl View for WebRtcMessagePayload {
    type V = WebRtcMessagePayloadView;

    open spec fn view(&self) -> WebRtcMessagePayloadView {
        match self {
            WebRtcMessagePayload::RequestPostMessage { content } => {
                WebRtcMessagePayloadView::RequestPostMessage { content: content@ }
            },
            WebRtcMessagePayload::Response { code, message } => {
                WebRtcMessagePayloadView::Response { code: *code, message: message@ }
            },
            WebRtcMessagePayload::DispatchUserUpdate { user } => {
                WebRtcMessagePayloadView::DispatchUserUpdate { user: user@ }
            },
            WebRtcMessagePayload::DispatchMessageUpdate { message } => {
                WebRtcMessagePayloadView::DispatchMessageUpdate { message: message@ }
            },
            WebRtcMessagePayload::Hello { user_id, users, messages } => {
                WebRtcMessagePayloadView::Hello {
                    user_id: user_id@,
                    users: user_public_views(users@),
                    messages: message_public_views(messages@),
                }
            },
            WebRtcMessagePayload::Empty => WebRtcMessagePayloadView::Empty,
        }
    }
}

impl Default for WebRtcMessagePayload {
    fn default() -> (result: Self)
        ensures
            result@ == WebRtcMessagePayloadView::Empty,
    {
        WebRtcMessagePayload::Empty
    }
}

impl WebRtcMessagePayload {
    /// Whether the message has no body.
    pub fn is_none(&self) -> (result: bool)
        ensures
            result == (self@ == WebRtcMessagePayloadView::Empty),
    {
        matches!(self, WebRtcMessagePayload::Empty)
    }
}

impl UserPublicView {
    /// The user on the wire: a map with the id, the name and the number of
    /// the status.
    pub open spec fn to_value(self) -> ValueView {
        ValueView::Table(
            seq![
                field("id"@, text_value(self.id)),
                field("username"@, text_value(self.username)),
                field("status"@, ValueView::Integer(self.status.spec_code() as int)),
            ],
        )
    }

    /// The user that a value stands for, if any: a map whose fields, looked
    /// up by name and each given once, are two strings and the number of a
    /// status.
    pub open spec fn from_value(value: ValueView) -> Option<Self> {
        match value {
            ValueView::Table(entries) => match (
                text_field(entries, 0, "id"@),
                text_field(entries, 0, "username"@),
                integer_field(entries, 0, "status"@, 0, 1),
            ) {
                (Some(id), Some(username), Some(code)) => Some(
                    UserPublicView {
                        id,
                        username,
                        status: if code == 0 {
                            UserStatus::Offline
                        } else {
                            UserStatus::Online
                        },
                    },
                ),
                _ => None,
            },
            _ => None,
        }
    }
}

impl MessagePublicView {
    /// The message on the wire: a map with the id, the id of the author
    /// and the content.
    pub open spec fn to_value(self) -> ValueView {
        ValueView::Table(
            seq![
                field("id"@, text_value(self.id)),
                field("author_id"@, text_value(self.author_id)),
                field("content"@, text_value(self.content)),
            ],
        )
    }

    /// The message that a value stands for, if any: a map whose fields,
    /// looked up by name and each given once, are three strings.
    pub open spec fn from_value(value: ValueView) -> Option<Self> {
        match value {
            ValueView::Table(entries) => match (
                text_field(entries, 0, "id"@),
                text_field(entries, 0, "author_id"@),
                text_field(entries, 0, "content"@),
            ) {
                (Some(id), Some(author_id), Some(content)) => Some(
                    MessagePublicView { id, author_id, content },
                ),
                _ => None,
            },
            _ => None,
        }
    }
}

/// The values of users, one by one.
pub open spec fn users_to_values(users: Seq<UserPublicView>) -> Seq<ValueView> {
    Seq::new(users.len(), |i: int| users[i].to_value())
}

/// The values of messages, one by one.
pub open spec fn messages_to_values(messages: Seq<MessagePublicView>) -> Seq<ValueView> {
    Seq::new(messages.len(), |i: int| messages[i].to_value())
}

/// The users that values stand for, one by one; nothing where one of them
/// stands for no user.
pub open spec fn users_from_values(items: Seq<ValueView>) -> Option<Seq<UserPublicView>>
    decreases items.len(),
{
    if items.len() == 0 {
        Some(Seq::empty())
    } else {
        match (users_from_values(items.drop_last()), UserPublicView::from_value(items.last())) {
            (Some(users), Some(user)) => Some(users.push(user)),
            _ => None,
        }
    }
}

/// The messages that values stand for, one by one; nothing where one of
/// them stands for no message.
pub open spec fn messages_from_values(items: Seq<ValueView>) -> Option<Seq<MessagePublicView>>
    decreases items.len(),
{
    if items.len() == 0 {
        Some(Seq::empty())
    } else {
        match (
            messages_from_values(items.drop_last()),
            MessagePublicView::from_value(items.last()),
        ) {
            (Some(messages), Some(message)) => Some(messages.push(message)),
            _ => None,
        }
    }
}

/// Where a part of the values stands for no users, the whole does not.
pub proof fn lemma_users_refused(items: Seq<ValueView>, n: int)
    requires
        0 <= n <= items.len(),
        users_from_values(items.take(n)) is None,
    ensures
        users_from_values(items) is None,
    decreases items.len() - n,
{
    if n < items.len() {
        assert(items.take(n + 1).drop_last() =~= items.take(n));
        lemma_users_refused(items, n + 1);
    } else {
        assert(items.take(n) =~= items);
    }
}

/// Where a part of the values stands for no messages, the whole does not.
pub proof fn lemma_messages_refused(items: Seq<ValueView>, n: int)
    requires
        0 <= n <= items.len(),
        messages_from_values(items.take(n)) is None,
    ensures
        messages_from_values(items) is None,
    decreases items.len() - n,
{
    if n < items.len() {
        assert(items.take(n + 1).drop_last() =~= items.take(n));
        lemma_messages_refused(items, n + 1);
    } else {
        assert(items.take(n) =~= items);
    }
}

impl WebRtcMessagePayloadView {
    /// The number the variant is known by on the wire.
    pub open spec fn tag(self) -> int {
        match self {
            WebRtcMessagePayloadView::RequestPostMessage { .. } => 10,
            WebRtcMessagePayloadView::Response { .. } => 20,
            WebRtcMessagePayloadView::DispatchUserUpdate { .. } => 40,
            WebRtcMessagePayloadView::DispatchMessageUpdate { .. } => 41,
            WebRtcMessagePayloadView::Hello { .. } => 50,
            WebRtcMessagePayloadView::Empty => 0,
        }
    }

    /// The fields of the body, each under its name, in their order.
    pub open spec fn fields(self) -> Seq<(ValueView, ValueView)> {
        match self {
            WebRtcMessagePayloadView::RequestPostMessage { content } => seq![
                field("content"@, text_value(content)),
            ],
            WebRtcMessagePayloadView::Response { code, message } => seq![
                field("code"@, ValueView::Integer(code as int)),
                field("message"@, text_value(message)),
            ],
            WebRtcMessagePayloadView::DispatchUserUpdate { user } => seq![
                field("user"@, user.to_value()),
            ],
            WebRtcMessagePayloadView::DispatchMessageUpdate { message } => seq![
                field("message"@, message.to_value()),
            ],
            WebRtcMessagePayloadView::Hello { user_id, users, messages } => seq![
                field("user_id"@, text_value(user_id)),
                field("users"@, ValueView::Array(users_to_values(users))),
                field("messages"@, ValueView::Array(messages_to_values(messages))),
            ],
            WebRtcMessagePayloadView::Empty => Seq::empty(),
        }
    }

    /// The body on the wire: a map that starts with the tag under the key
    /// `t` and goes on with the fields.
    pub open spec fn to_value(self) -> ValueView {
        tagged(self.tag(), self.fields())
    }

    /// The body that the entries of a map stand for. The value of the
    /// first entry, an integer, is the tag; its key is not looked at, and
    /// stands for `t`. The fields of the variant are looked up by name
    /// among the entries that follow; entries of other names are passed
    /// over. Where the tag is no integer or names no variant, or a field is
    /// missing, of another type or given twice, or an entry that follows
    /// has the key `t`, the body is empty.
    pub open spec fn from_entries(entries: Seq<(ValueView, ValueView)>) -> Self {
        let none = WebRtcMessagePayloadView::Empty;
        match entries[0].1 {
            ValueView::Integer(tag) => {
                if lookup(entries, 1, "t"@) is Some {
                    none
                } else if tag == 10 {
                    match text_field(entries, 1, "content"@) {
                        Some(content) => WebRtcMessagePayloadView::RequestPostMessage { content },
                        None => none,
                    }
                } else if tag == 20 {
                    match (
                        integer_field(entries, 1, "code"@, 0, 4294967295),
                        text_field(entries, 1, "message"@),
                    ) {
                        (Some(code), Some(message)) => WebRtcMessagePayloadView::Response {
                            code: code as u32,
                            message,
                        },
                        _ => none,
                    }
                } else if tag == 40 {
                    match single(entries, 1, "user"@) {
                        Some(value) => match UserPublicView::from_value(value) {
                            Some(user) => WebRtcMessagePayloadView::DispatchUserUpdate { user },
                            None => none,
                        },
                        None => none,
                    }
                } else if tag == 41 {
                    match single(entries, 1, "message"@) {
                        Some(value) => match MessagePublicView::from_value(value) {
                            Some(message) => WebRtcMessagePayloadView::DispatchMessageUpdate {
                                message,
                            },
                            None => none,
                        },
                        None => none,
                    }
                } else if tag == 50 {
                    match (
                        text_field(entries, 1, "user_id"@),
                        single(entries, 1, "users"@),
                        single(entries, 1, "messages"@),
                    ) {
                        (
                            Some(user_id),
                            Some(ValueView::Array(users)),
                            Some(ValueView::Array(messages)),
                        ) => match (users_from_values(users), messages_from_values(messages)) {
                            (Some(users), Some(messages)) => WebRtcMessagePayloadView::Hello {
                                user_id,
                                users,
                                messages,
                            },
                            _ => none,
                        },
                        _ => none,
                    }
                } else {
                    none
                }
            },
            _ => none,
        }
    }

    /// The body that a value stands for: that of its entries where it is a
    /// map with entries; `NotAMap` and `NoElements` otherwise.
    pub open spec fn from_value(value: ValueView) -> Result<Self, DecodeError> {
        match value {
            ValueView::Table(entries) => if entries.len() == 0 {
                Err(DecodeError::NoElements)
            } else {
                Ok(Self::from_entries(entries))
            },
            _ => Err(DecodeError::NotAMap),
        }
    }
}

impl UserPublic {
    /// The user as a value to put on the wire.
    pub fn to_value(&self) -> (result: Value)
        ensures
            result@ == self@.to_value(),
    {
        let mut entries: Vec<(Value, Value)> = Vec::new();
        entries.push(entry("id", Value::from_string(self.id.clone())));
        entries.push(entry("username", Value::from_string(self.username.clone())));
        entries.push(entry("status", Value::from_u64(self.status.code() as u64)));
        proof {
            assert(entry_views(entries@) =~= self@.to_value()->Table_0);
        }
        Value::table(entries)
    }

    /// The user that a value read from the wire stands for, if any.
    pub fn from_value(value: &Value) -> (result: Option<Self>)
        ensures
            match result {
                Some(user) => UserPublicView::from_value(value@) == Some(user@),
                None => UserPublicView::from_value(value@) is None,
            },
    {
        let Some(entries) = value.as_entries() else {
            return None;
        };
        match (
            get_text(entries, 0, "id"),
            get_text(entries, 0, "username"),
            get_integer(entries, 0, "status", 0, 1),
        ) {
            (Some(id), Some(username), Some(code)) => {
                let status = if code == 0 {
                    UserStatus::Offline
                } else {
                    UserStatus::Online
                };
                Some(UserPublic { id, username, status })
            },
            _ => None,
        }
    }
}

impl MessagePublic {
    /// The message as a value to put on the wire.
    pub fn to_value(&self) -> (result: Value)
        ensures
            result@ == self@.to_value(),
    {
        let mut entries: Vec<(Value, Value)> = Vec::new();
        entries.push(entry("id", Value::from_string(self.id.clone())));
        entries.push(entry("author_id", Value::from_string(self.author_id.clone())));
        entries.push(entry("content", Value::from_string(self.content.clone())));
        proof {
            assert(entry_views(entries@) =~= self@.to_value()->Table_0);
        }
        Value::table(entries)
    }

    /// The message that a value read from the wire stands for, if any.
    pub fn from_value(value: &Value) -> (result: Option<Self>)
        ensures
            match result {
                Some(message) => MessagePublicView::from_value(value@) == Some(message@),
                None => MessagePublicView::from_value(value@) is None,
            },
    {
        let Some(entries) = value.as_entries() else {
            return None;
        };
        match (
            get_text(entries, 0, "id"),
            get_text(entries, 0, "author_id"),
            get_text(entries, 0, "content"),
        ) {
            (Some(id), Some(author_id), Some(content)) => Some(
                MessagePublic { id, author_id, content },
            ),
            _ => None,
        }
    }
}

fn users_to_value(users: &Vec<UserPublic>) -> (result: Value)
    ensures
        result@ == ValueView::Array(users_to_values(user_public_views(users@))),
{
    let mut items: Vec<Value> = Vec::new();
    let mut i: usize = 0;
    while i < users.len()
        invariant
            i <= users.len(),
            items@.len() == i,
            forall|j: int| 0 <= j < i ==> items@[j]@ == users@[j]@.to_value(),
        decreases users.len() - i,
    {
        items.push(users[i].to_value());
        i += 1;
    }
    proof {
        assert(item_views(items@) =~= users_to_values(user_public_views(users@)));
    }
    Value::array(items)
}

fn messages_to_value(messages: &Vec<MessagePublic>) -> (result: Value)
    ensures
        result@ == ValueView::Array(messages_to_values(message_public_views(messages@))),
{
    let mut items: Vec<Value> = Vec::new();
    let mut i: usize = 0;
    while i < messages.len()
        invariant
            i <= messages.len(),
            items@.len() == i,
            forall|j: int| 0 <= j < i ==> items@[j]@ == messages@[j]@.to_value(),
        decreases messages.len() - i,
    {
        items.push(messages[i].to_value());
        i += 1;
    }
    proof {
        assert(item_views(items@) =~= messages_to_values(message_public_views(messages@)));
    }
    Value::array(items)
}

fn users_from_items(items: &Vec<Value>) -> (result: Option<Vec<UserPublic>>)
    ensures
        match result {
            Some(users) => users_from_values(item_views(items@)) == Some(
                user_public_views(users@),
            ),
            None => users_from_values(item_views(items@)) is None,
        },
{
    let ghost views = item_views(items@);
    let mut users: Vec<UserPublic> = Vec::new();
    let mut i: usize = 0;
    while i < items.len()
        invariant
            i <= items.len(),
            views == item_views(items@),
            users_from_values(views.take(i as int)) == Some(user_public_views(users@)),
        decreases items.len() - i,
    {
        proof {
            assert(views.take(i + 1).drop_last() =~= views.take(i as int));
            assert(views.take(i + 1).last() == items@[i as int]@);
        }
        match UserPublic::from_value(&items[i]) {
            Some(user) => {
                let ghost before = user_public_views(users@);
                let ghost view = user@;
                users.push(user);
                proof {
                    assert(user_public_views(users@) =~= before.push(view));
                }
            },
            None => {
                proof {
                    lemma_users_refused(views, i + 1);
                }
                return None;
            },
        }
        i += 1;
    }
    proof {
        assert(views.take(i as int) =~= views);
    }
    Some(users)
}

fn messages_from_items(items: &Vec<Value>) -> (result: Option<Vec<MessagePublic>>)
    ensures
        match result {
            Some(messages) => messages_from_values(item_views(items@)) == Some(
                message_public_views(messages@),
            ),
            None => messages_from_values(item_views(items@)) is None,
        },
{
    let ghost views = item_views(items@);
    let mut messages: Vec<MessagePublic> = Vec::new();
    let mut i: usize = 0;
    while i < items.len()
        invariant
            i <= items.len(),
            views == item_views(items@),
            messages_from_values(views.take(i as int)) == Some(message_public_views(messages@)),
        decreases items.len() - i,
    {
        proof {
            assert(views.take(i + 1).drop_last() =~= views.take(i as int));
            assert(views.take(i + 1).last() == items@[i as int]@);
        }
        match MessagePublic::from_value(&items[i]) {
            Some(message) => {
                let ghost before = message_public_views(messages@);
                let ghost view = message@;
                messages.push(message);
                proof {
                    assert(message_public_views(messages@) =~= before.push(view));
                }
            },
            None => {
                proof {
                    lemma_messages_refused(views, i + 1);
                }
                return None;
            },
        }
        i += 1;
    }
    proof {
        assert(views.take(i as int) =~= views);
    }
    Some(messages)
}

impl WebRtcMessagePayload {
    /// The body as a value to put on the wire.
    pub fn to_value(&self) -> (result: Value)
        ensures
            result@ == self@.to_value(),
    {
        let mut fields: Vec<(Value, Value)> = Vec::new();
        match self {
            WebRtcMessagePayload::RequestPostMessage { content } => {
                fields.push(entry("content", Value::from_string(content.clone())));
                assert(entry_views(fields@) =~= self@.fields());
                tagged_table(10, fields)
            },
            WebRtcMessagePayload::Response { code, message } => {
                fields.push(entry("code", Value::from_u64(*code as u64)));
                fields.push(entry("message", Value::from_string(message.clone())));
                assert(entry_views(fields@) =~= self@.fields());
                tagged_table(20, fields)
            },
            WebRtcMessagePayload::DispatchUserUpdate { user } => {
                fields.push(entry("user", user.to_value()));
                assert(entry_views(fields@) =~= self@.fields());
                tagged_table(40, fields)
            },
            WebRtcMessagePayload::DispatchMessageUpdate { message } => {
                fields.push(entry("message", message.to_value()));
                assert(entry_views(fields@) =~= self@.fields());
                tagged_table(41, fields)
            },
            WebRtcMessagePayload::Hello { user_id, users, messages } => {
                fields.push(entry("user_id", Value::from_string(user_id.clone())));
                fields.push(entry("users", users_to_value(users)));
                fields.push(entry("messages", messages_to_value(messages)));
                assert(entry_views(fields@) =~= self@.fields());
                tagged_table(50, fields)
            },
            WebRtcMessagePayload::Empty => {
                assert(entry_views(fields@) =~= self@.fields());
                tagged_table(0, fields)
            },
        }
    }

    fn from_entries(entries: &Vec<(Value, Value)>) -> (result: Self)
        requires
            entries@.len() > 0,
        ensures
            result@ == WebRtcMessagePayloadView::from_entries(entry_views(entries@)),
    {
        let Some(tag) = entries[0].1.as_integer(
            -0x8000_0000_0000_0000_0000_0000_0000_0000,
            0x7fff_ffff_ffff_ffff_ffff_ffff_ffff_ffff,
        ) else {
            return WebRtcMessagePayload::Empty;
        };
        if Value::lookup(entries, 1, "t").is_some() {
            return WebRtcMessagePayload::Empty;
        }
        if tag == 10 {
            match get_text(entries, 1, "content") {
                Some(content) => WebRtcMessagePayload::RequestPostMessage { content },
                None => WebRtcMessagePayload::Empty,
            }
        } else if tag == 20 {
            match (get_integer(entries, 1, "code", 0, 4294967295), get_text(entries, 1, "message")) {
                (Some(code), Some(message)) => WebRtcMessagePayload::Response {
                    code: code as u32,
                    message,
                },
                _ => WebRtcMessagePayload::Empty,
            }
        } else if tag == 40 {
            match Value::single(entries, 1, "user") {
                Some(value) => match UserPublic::from_value(value) {
                    Some(user) => WebRtcMessagePayload::DispatchUserUpdate { user },
                    None => WebRtcMessagePayload::Empty,
                },
                None => WebRtcMessagePayload::Empty,
            }
        } else if tag == 41 {
            match Value::single(entries, 1, "message") {
                Some(value) => match MessagePublic::from_value(value) {
                    Some(message) => WebRtcMessagePayload::DispatchMessageUpdate { message },
                    None => WebRtcMessagePayload::Empty,
                },
                None => WebRtcMessagePayload::Empty,
            }
        } else if tag == 50 {
            let Some(user_id) = get_text(entries, 1, "user_id") else {
                return WebRtcMessagePayload::Empty;
            };
            let Some(users) = Value::single(entries, 1, "users") else {
                return WebRtcMessagePayload::Empty;
            };
            let Some(messages) = Value::single(entries, 1, "messages") else {
                return WebRtcMessagePayload::Empty;
            };
            let (Some(users), Some(messages)) = (users.as_items(), messages.as_items()) else {
                return WebRtcMessagePayload::Empty;
            };
            match (users_from_items(users), messages_from_items(messages)) {
                (Some(users), Some(messages)) => WebRtcMessagePayload::Hello {
                    user_id,
                    users,
                    messages,
                },
                _ => WebRtcMessagePayload::Empty,
            }
        } else {
            WebRtcMessagePayload::Empty
        }
    }

    /// The body that a value read from the wire stands for.
    pub fn from_value(value: &Value) -> (result: Result<Self, DecodeError>)
        ensures
            match result {
                Ok(payload) => WebRtcMessagePayloadView::from_value(value@) == Ok::<
                    WebRtcMessagePayloadView,
                    DecodeError,
                >(payload@),
                Err(e) => WebRtcMessagePayloadView::from_value(value@) == Err::<
                    WebRtcMessagePayloadView,
                    DecodeError,
                >(e),
            },
    {
        let Some(entries) = value.as_entries() else {
            return Err(DecodeError::NotAMap);
        };
        if entries.len() == 0 {
            return Err(DecodeError::NoElements);
        }
        Ok(WebRtcMessagePayload::from_entries(entries))
    }
}

/// The names of the fields are what they are written as.
pub proof fn lemma_field_names()
    ensures
        "t"@.len() == 1,
        "id"@.len() == 2,
        "username"@.len() == 8,
        "status"@.len() == 6,
        "author_id"@.len() == 9,
        "content"@.len() == 7,
        "code"@.len() == 4,
        "message"@.len() == 7,
        "user"@.len() == 4,
        "user_id"@.len() == 7,
        "users"@.len() == 5,
        "messages"@.len() == 8,
{
    reveal_strlit("t");
    reveal_strlit("id");
    reveal_strlit("username");
    reveal_strlit("status");
    reveal_strlit("author_id");
    reveal_strlit("content");
    reveal_strlit("code");
    reveal_strlit("message");
    reveal_strlit("user");
    reveal_strlit("user_id");
    reveal_strlit("users");
    reveal_strlit("messages");
}

/// Round trip of a public user.
pub proof fn lemma_user_round_trip(user: UserPublicView)
    ensures
        UserPublicView::from_value(user.to_value()) == Some(user),
{
    lemma_field_names();
    reveal_with_fuel(lookup, 5);
    reveal_with_fuel(occurrences, 5);
    let entries = user.to_value()->Table_0;
    assert(entries[0] == field("id"@, text_value(user.id)));
    assert(entries[1] == field("username"@, text_value(user.username)));
    assert(entries[2] == field("status"@, ValueView::Integer(user.status.spec_code() as int)));
}

/// Round trip of a public message.
pub proof fn lemma_public_message_round_trip(message: MessagePublicView)
    ensures
        MessagePublicView::from_value(message.to_value()) == Some(message),
{
    lemma_field_names();
    reveal_with_fuel(lookup, 5);
    reveal_with_fuel(occurrences, 5);
    let entries = message.to_value()->Table_0;
    assert(entries[0] == field("id"@, text_value(message.id)));
    assert(entries[1] == field("author_id"@, text_value(message.author_id)));
    assert(entries[2] == field("content"@, text_value(message.content)));
}

/// Round trip of a list of public users.
pub proof fn lemma_users_round_trip(users: Seq<UserPublicView>)
    ensures
        users_from_values(users_to_values(users)) == Some(users),
    decreases users.len(),
{
    if users.len() > 0 {
        lemma_users_round_trip(users.drop_last());
        lemma_user_round_trip(users.last());
        assert(users_to_values(users).drop_last() =~= users_to_values(users.drop_last()));
        assert(users.drop_last().push(users.last()) =~= users);
    } else {
        assert(users =~= Seq::empty());
    }
}

/// Round trip of a list of public messages.
pub proof fn lemma_public_messages_round_trip(messages: Seq<MessagePublicView>)
    ensures
        messages_from_values(messages_to_values(messages)) == Some(messages),
    decreases messages.len(),
{
    if messages.len() > 0 {
        lemma_public_messages_round_trip(messages.drop_last());
        lemma_public_message_round_trip(messages.last());
        assert(messages_to_values(messages).drop_last() =~= messages_to_values(
            messages.drop_last(),
        ));
        assert(messages.drop_last().push(messages.last()) =~= messages);
    } else {
        assert(messages =~= Seq::empty());
    }
}

/// Round trip of a body: the value a body is written as is read back as
/// that body, whatever the variant and its fields.
pub proof fn lemma_payload_round_trip(payload: WebRtcMessagePayloadView)
    ensures
        WebRtcMessagePayloadView::from_value(payload.to_value()) == Ok::<
            WebRtcMessagePayloadView,
            DecodeError,
        >(payload),
{
    lemma_field_names();
    reveal_with_fuel(lookup, 6);
    reveal_with_fuel(occurrences, 6);
    let entries = payload.to_value()->Table_0;
    assert(entries.len() > 0);
    assert(entries[0].1 == ValueView::Integer(payload.tag()));
    match payload {
        WebRtcMessagePayloadView::RequestPostMessage { content } => {
            assert(entries[1] == field("content"@, text_value(content)));
        },
        WebRtcMessagePayloadView::Response { code, message } => {
            assert(entries[1] == field("code"@, ValueView::Integer(code as int)));
            assert(entries[2] == field("message"@, text_value(message)));
        },
        WebRtcMessagePayloadView::DispatchUserUpdate { user } => {
            lemma_user_round_trip(user);
            assert(entries[1] == field("user"@, user.to_value()));
        },
        WebRtcMessagePayloadView::DispatchMessageUpdate { message } => {
            lemma_public_message_round_trip(message);
            assert(entries[1] == field("message"@, message.to_value()));
        },
        WebRtcMessagePayloadView::Hello { user_id, users, messages } => {
            lemma_users_round_trip(users);
            lemma_public_messages_round_trip(messages);
            assert(entries[1] == field("user_id"@, text_value(user_id)));
            assert(entries[2] == field("users"@, ValueView::Array(users_to_values(users))));
            assert(entries[3] == field(
                "messages"@,
                ValueView::Array(messages_to_values(messages)),
            ));
        },
        WebRtcMessagePayloadView::Empty => {},
    }
}

} // verus!
