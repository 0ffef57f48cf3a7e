//! The request of the peer channel that posts a chat message.

use snowflake::SnowflakeIdGenerator;
use vstd::prelude::*;

use crate::database::{Database, DatabaseView};
use crate::error::{AppError, AppErrorTemplate, AppErrorView};
use crate::services::message::model::{Message, MessageView};
use crate::utils::snowflake_generator;
use crate::web_rtc::connection::WebRtcConnection;
use crate::web_rtc::message::{MessageUpdateMessage, WebRtcMessage, WebRtcMessagePayload};

verus! {

/// What posting a message gives: a content of a wrong length is refused
/// before anything changes; else the message is stored under `id`, by the
/// user and in the room of the connection.
pub open spec fn spec_post(before: DatabaseView, author_id: i64, room_id: i64, content: Seq<char>, id: i64) -> Result<
    (DatabaseView, MessageView),
    AppErrorView,
> {
    match Message::spec_check_content_length(content) {
        Err(e) => Err(e),
        Ok(()) => Message::spec_create(before, id, author_id, room_id, content),
    }
}

/// Whether a message was posted as [`spec_post`] says for this id: on
/// success the update to broadcast to the room carries the stored message;
/// on failure the store is unchanged.
pub open spec fn posted_with(
    id: i64,
    content: Seq<char>,
    connection: WebRtcConnection,
    store_before: DatabaseView,
    store_after: DatabaseView,
    result: Result<MessageUpdateMessage, AppError>,
) -> bool {
    let model = spec_post(
        store_before,
        connection.registered_user_id,
        connection.registered_room_id,
        content,
        id,
    );
    match result {
        Ok(update) => model == Ok::<(DatabaseView, MessageView), AppErrorView>(
            (store_after, update.message@),
        ) && update.room_id == connection.registered_room_id,
        Err(e) => model == Err::<(DatabaseView, MessageView), AppErrorView>(e@) && store_after
            == store_before,
    }
}

/// Posts `content` as a message with the id `id`.
pub fn post_message_with_id(
    content: String,
    connection: &WebRtcConnection,
    store: &mut Database,
    id: i64,
) -> (result: Result<MessageUpdateMessage, AppError>)
    ensures
        posted_with(id, content@, *connection, old(store)@, final(store)@, result),
{
    if let Err(e) = Message::check_content_length(content.as_str()) {
        return Err(e);
    }
    match Message::create_with_id(
        store,
        id,
        connection.registered_user_id,
        connection.registered_room_id,
        content,
    ) {
        Ok(message) => Ok(MessageUpdateMessage { message, room_id: connection.registered_room_id }),
        Err(e) => Err(e),
    }
}

/// Handles the request to post a message. A message of another kind is a
/// `BadRequest`. The id of the message comes from the clock: the outcome
/// is that of [`post_message_with_id`] for some id. A content of a wrong
/// length is refused before an id is drawn.
pub fn post_message(
    message: WebRtcMessage,
    connection: &WebRtcConnection,
    store: &mut Database,
    generator: &mut SnowflakeIdGenerator,
) -> (result: Result<MessageUpdateMessage, AppError>)
    ensures
        message.payload@ is RequestPostMessage ==> exists|id: i64|
            #[trigger] posted_with(
                id,
                message.payload@->RequestPostMessage_content,
                *connection,
                old(store)@,
                final(store)@,
                result,
            ),
        !(message.payload@ is RequestPostMessage) ==> {
            &&& result matches Err(e) && e@ == AppErrorTemplate::BadRequest(None).spec_error()
            &&& final(store)@ == old(store)@
        },
{
    let ghost payload = message.payload@;
    let WebRtcMessagePayload::RequestPostMessage { content } = message.payload else {
        return Err(AppError::from_template(AppErrorTemplate::BadRequest(None)));
    };
    assert(payload->RequestPostMessage_content == content@);
    if let Err(e) = Message::check_content_length(content.as_str()) {
        proof {
            assert(posted_with(
                0,
                content@,
                *connection,
                store@,
                store@,
                Err::<MessageUpdateMessage, AppError>(e),
            ));
        }
        return Err(e);
    }
    let id = snowflake_generator::generate(generator);
    let ghost text = content@;
    let result = post_message_with_id(content, connection, store, id);
    proof {
        assert(posted_with(id, text, *connection, old(store)@, store@, result));
    }
    result
}

} // verus!
