//! Chat messages: immutable once posted, queried by room.

use snowflake::SnowflakeIdGenerator;
use vstd::prelude::*;
use vstd::string::*;

use crate::constants::{MESSAGE_CONTENT_MAX_LENGTH, MESSAGE_CONTENT_MIN_LENGTH};
use crate::database::{message_views, Database, DatabaseView};
use crate::error::{AppError, AppErrorTemplate, AppErrorView};
use crate::utils::decimal::{decimal, decimal_string};
use crate::utils::snowflake_generator;

verus! {

#[derive(Debug)]
pub struct Message {
    pub id: i64,
    pub author_id: i64,
    pub room_id: i64,
    pub content: String,
}

/// The mathematical value of a [`Message`].
pub ghost struct MessageView {
    pub id: i64,
    pub author_id: i64,
    pub room_id: i64,
    pub content: Seq<char>,
}

impl View for Message {
    type V = MessageView;

    open spec fn view(&self) -> MessageView {
        MessageView {
            id: self.id,
            author_id: self.author_id,
            room_id: self.room_id,
            content: self.content@,
        }
    }
}

impl Clone for Message {
    fn clone(&self) -> (result: Self)
        ensures
            result@ == self@,
    {
        Message {
            id: self.id,
            author_id: self.author_id,
            room_id: self.room_id,
            content: self.content.clone(),
        }
    }
}

/// What clients see of a message.
#[derive(Debug)]
pub struct MessagePublic {
    pub id: String,
    pub author_id: String,
    pub content: String,
}

/// The mathematical value of a [`MessagePublic`].
pub ghost struct MessagePublicView {
    pub id: Seq<char>,
    pub author_id: Seq<char>,
    pub content: Seq<char>,
}

impl View for MessagePublic {
    type V = MessagePublicView;

    open spec fn view(&self) -> MessagePublicView {
        MessagePublicView { id: self.id@, author_id: self.author_id@, content: self.content@ }
    }
}

impl Clone for MessagePublic {
    fn clone(&self) -> (result: Self)
        ensures
            result@ == self@,
    {
        MessagePublic {
            id: self.id.clone(),
            author_id: self.author_id.clone(),
            content: self.content.clone(),
        }
    }
}

impl MessageView {
    /// What clients see of the message: both ids as decimal text, and the
    /// content.
    pub open spec fn public(self) -> MessagePublicView {
        MessagePublicView {
            id: decimal(self.id as int),
            author_id: decimal(self.author_id as int),
            content: self.content,
        }
    }
}

impl MessagePublic {
    /// What clients see of `message`.
    pub fn from(message: Message) -> (result: MessagePublic)
        ensures
            result@ == message@.public(),
    {
        MessagePublic {
            id: decimal_string(message.id),
            author_id: decimal_string(message.author_id),
            content: message.content,
        }
    }
}

impl Message {
    /// What storing a new message gives: the store with the message
    /// appended, or `Conflict` where the id is taken.
    pub open spec fn spec_create(
        before: DatabaseView,
        id: i64,
        author_id: i64,
        room_id: i64,
        content: Seq<char>,
    ) -> Result<(DatabaseView, MessageView), AppErrorView> {
        let message = MessageView { id, author_id, room_id, content };
        match before.insert_message(message) {
            Ok(after) => Ok((after, message)),
            Err(e) => Err(AppError::spec_from_store_error(e)),
        }
    }

    /// What the length check of a message content gives.
    pub open spec fn spec_check_content_length(content: Seq<char>) -> Result<(), AppErrorView> {
        if content.len() < MESSAGE_CONTENT_MIN_LENGTH {
            Err(AppErrorTemplate::MessageContentTooShort(None).spec_error())
        } else if content.len() > MESSAGE_CONTENT_MAX_LENGTH {
            Err(AppErrorTemplate::MessageContentTooLong(None).spec_error())
        } else {
            Ok(())
        }
    }

    /// Stores a new message with the given id.
    pub fn create_with_id(
        store: &mut Database,
        id: i64,
        author_id: i64,
        room_id: i64,
        content: String,
    ) -> (result: Result<Message, AppError>)
        ensures
            match result {
                Ok(message) => Message::spec_create(old(store)@, id, author_id, room_id, content@)
                    == Ok::<(DatabaseView, MessageView), AppErrorView>((final(store)@, message@)),
                Err(e) => Message::spec_create(old(store)@, id, author_id, room_id, content@)
                    == Err::<(DatabaseView, MessageView), AppErrorView>(e@) && final(store)@
                    == old(store)@,
            },
    {
        let message = Message { id, author_id, room_id, content };
        let stored = message.clone();
        match store.insert_message(stored) {
            Ok(()) => Ok(message),
            Err(e) => Err(AppError::from_store_error(e)),
        }
    }

    /// Stores a new message under a new id. The id comes from the clock:
    /// the outcome is that of [`Message::create_with_id`] for some id.
    pub fn create(
        store: &mut Database,
        generator: &mut SnowflakeIdGenerator,
        author_id: i64,
        room_id: i64,
        content: String,
    ) -> (result: Result<Message, AppError>)
        ensures
            exists|id: i64|
                match result {
                    Ok(message) => #[trigger] Message::spec_create(
                        old(store)@,
                        id,
                        author_id,
                        room_id,
                        content@,
                    ) == Ok::<(DatabaseView, MessageView), AppErrorView>(
                        (final(store)@, message@),
                    ),
                    Err(e) => Message::spec_create(old(store)@, id, author_id, room_id, content@)
                        == Err::<(DatabaseView, MessageView), AppErrorView>(e@) && final(store)@
                        == old(store)@,
                },
    {
        let id = snowflake_generator::generate(generator);
        Message::create_with_id(store, id, author_id, room_id, content)
    }

    /// The messages of the room `id`, in the order in which they were
    /// posted.
    pub fn find_all_by_room_id(store: &Database, id: &i64) -> (result: Result<
        Vec<Message>,
        AppError,
    >)
        ensures
            result is Ok,
            message_views(result->Ok_0@) == store@.messages_of_room(*id),
    {
        Ok(store.find_messages_by_room_id(*id))
    }

    /// Accepts a content of 1 to 1024 characters; an empty one is
    /// `MessageContentTooShort`, a longer one `MessageContentTooLong`.
    pub fn check_content_length(content: &str) -> (result: Result<(), AppError>)
        ensures
            match result {
                Ok(()) => Message::spec_check_content_length(content@) == Ok::<(), AppErrorView>(
                    (),
                ),
                Err(e) => Message::spec_check_content_length(content@) == Err::<(), AppErrorView>(
                    e@,
                ),
            },
    {
        let length = content.unicode_len();
        if length < MESSAGE_CONTENT_MIN_LENGTH {
            Err(AppError::from_template(AppErrorTemplate::MessageContentTooShort(None)))
        } else if length > MESSAGE_CONTENT_MAX_LENGTH {
            Err(AppError::from_template(AppErrorTemplate::MessageContentTooLong(None)))
        } else {
            Ok(())
        }
    }
}

} // verus!
