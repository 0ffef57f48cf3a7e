//! Rooms: a unique name and the control connections joined to it.

use snowflake::SnowflakeIdGenerator;
use vstd::prelude::*;
use vstd::string::*;

use crate::constants::{ROOM_NAME_MAX_LENGTH, ROOM_NAME_MIN_LENGTH};
use crate::database::{remove_connection, without_connection, Database, DatabaseView};
use crate::error::{AppError, AppErrorTemplate, AppErrorView};
use crate::utils::snowflake_generator;

verus! {

#[derive(Debug)]
pub struct Room {
    pub id: i64,
    pub name: String,
    pub active_connection_ids: Vec<i64>,
}

/// The mathematical value of a [`Room`].
pub ghost struct RoomView {
    pub id: i64,
    pub name: Seq<char>,
    pub active_connection_ids: Seq<i64>,
}

impl View for Room {
    type V = RoomView;

    open spec fn view(&self) -> RoomView {
        RoomView {
            id: self.id,
            name: self.name@,
            active_connection_ids: self.active_connection_ids@,
        }
    }
}

impl Clone for Room {
    fn clone(&self) -> (result: Self)
        ensures
            result@ == self@,
    {
        Room {
            id: self.id,
            name: self.name.clone(),
            active_connection_ids: self.active_connection_ids.clone(),
        }
    }
}

impl Room {
    /// What storing a new room gives: the store with a room without
    /// connections added, or `Conflict` where the id or the name is taken.
    pub open spec fn spec_create(before: DatabaseView, id: i64, name: Seq<char>) -> Result<
        (DatabaseView, RoomView),
        AppErrorView,
    > {
        let room = RoomView { id, name, active_connection_ids: Seq::empty() };
        match before.insert_room(room) {
            Ok(after) => Ok((after, room)),
            Err(e) => Err(AppError::spec_from_store_error(e)),
        }
    }

    /// What registering a connection to a room gives: the store with the
    /// connection appended to the room's connections, or `NotFound` where no
    /// room has that id.
    pub open spec fn spec_register_connection(before: DatabaseView, id: i64, room_id: i64) -> Result<
        DatabaseView,
        AppErrorView,
    > {
        if before.has_room(room_id) {
            Ok(
                DatabaseView {
                    rooms: before.rooms.update(
                        before.room_index(room_id),
                        RoomView {
                            active_connection_ids: before.room(room_id).active_connection_ids.push(
                                id,
                            ),
                            ..before.room(room_id)
                        },
                    ),
                    ..before
                },
            )
        } else {
            Err(AppErrorTemplate::NotFound(None).spec_error())
        }
    }

    /// What unregistering a connection from a room gives. Where the room is
    /// left without connections, the room and every user of it are deleted;
    /// else the room keeps its other connections and the users stay.
    /// `NotFound` where no room has that id.
    pub open spec fn spec_unregister_connection(before: DatabaseView, id: i64, room_id: i64) -> Result<
        DatabaseView,
        AppErrorView,
    > {
        if before.has_room(room_id) {
            let remaining = without_connection(before.room(room_id).active_connection_ids, id);
            if remaining.len() == 0 {
                Ok(
                    DatabaseView {
                        rooms: before.rooms.remove(before.room_index(room_id)),
                        ..before.delete_users_of_room(room_id)
                    },
                )
            } else {
                Ok(
                    DatabaseView {
                        rooms: before.rooms.update(
                            before.room_index(room_id),
                            RoomView { active_connection_ids: remaining, ..before.room(room_id) },
                        ),
                        ..before
                    },
                )
            }
        } else {
            Err(AppErrorTemplate::NotFound(None).spec_error())
        }
    }

    /// What the length check of a room name gives.
    pub open spec fn spec_check_name_length(name: Seq<char>) -> Result<(), AppErrorView> {
        if name.len() < ROOM_NAME_MIN_LENGTH {
            Err(AppErrorTemplate::RoomNameTooShort(None).spec_error())
        } else if name.len() > ROOM_NAME_MAX_LENGTH {
            Err(AppErrorTemplate::RoomNameTooLong(None).spec_error())
        } else {
            Ok(())
        }
    }

    /// Stores a new room with the given id and name.
    pub fn create_with_id(store: &mut Database, id: i64, name: String) -> (result: Result<
        Room,
        AppError,
    >)
        ensures
            match result {
                Ok(room) => Room::spec_create(old(store)@, id, name@) == Ok::<
                    (DatabaseView, RoomView),
                    AppErrorView,
                >((final(store)@, room@)),
                Err(e) => Room::spec_create(old(store)@, id, name@) == Err::<
                    (DatabaseView, RoomView),
                    AppErrorView,
                >(e@) && final(store)@ == old(store)@,
            },
    {
        let room = Room { id, name, active_connection_ids: Vec::new() };
        let stored = room.clone();
        match store.insert_room(stored) {
            Ok(()) => Ok(room),
            Err(e) => Err(AppError::from_store_error(e)),
        }
    }

    /// Stores a new room under a new id. The id comes from the clock: the
    /// outcome is that of [`Room::create_with_id`] for some id.
    pub fn create(store: &mut Database, generator: &mut SnowflakeIdGenerator, name: String) -> (result:
        Result<Room, AppError>)
        ensures
            exists|id: i64|
                match result {
                    Ok(room) => #[trigger] Room::spec_create(old(store)@, id, name@) == Ok::<
                        (DatabaseView, RoomView),
                        AppErrorView,
                    >((final(store)@, room@)),
                    Err(e) => Room::spec_create(old(store)@, id, name@) == Err::<
                        (DatabaseView, RoomView),
                        AppErrorView,
                    >(e@) && final(store)@ == old(store)@,
                },
    {
        let id = snowflake_generator::generate(generator);
        Room::create_with_id(store, id, name)
    }

    /// The room with this name; `NotFound` where none is stored.
    pub fn find_by_name(store: &Database, name: &str) -> (result: Result<Room, AppError>)
        ensures
            match result {
                Ok(room) => store@.has_room_named(name@) && room@ == store@.room_named(name@),
                Err(e) => !store@.has_room_named(name@) && e@ == AppErrorTemplate::NotFound(
                    None,
                ).spec_error(),
            },
    {
        match store.find_room_by_name(name) {
            Some(room) => Ok(room),
            None => Err(AppError::from_template(AppErrorTemplate::NotFound(None))),
        }
    }

    /// Adds the connection `id` to the connections of the room `room_id`.
    pub fn register_connection(store: &mut Database, id: i64, room_id: &i64) -> (result: Result<
        (),
        AppError,
    >)
        ensures
            match result {
                Ok(()) => Room::spec_register_connection(old(store)@, id, *room_id) == Ok::<
                    DatabaseView,
                    AppErrorView,
                >(final(store)@),
                Err(e) => Room::spec_register_connection(old(store)@, id, *room_id) == Err::<
                    DatabaseView,
                    AppErrorView,
                >(e@) && final(store)@ == old(store)@,
            },
    {
        let Some(room) = store.find_room_by_id(*room_id) else {
            return Err(AppError::from_template(AppErrorTemplate::NotFound(None)));
        };
        let mut ids = room.active_connection_ids;
        ids.push(id);
        match store.set_room_connections(*room_id, ids) {
            Ok(()) => Ok(()),
            Err(e) => Err(AppError::from_store_error(e)),
        }
    }

    /// Takes the connection `id` out of the connections of the room
    /// `room_id`, and deletes the room with its users where none is left.
    pub fn unregister_connection(store: &mut Database, id: &i64, room_id: &i64) -> (result: Result<
        (),
        AppError,
    >)
        ensures
            match result {
                Ok(()) => Room::spec_unregister_connection(old(store)@, *id, *room_id) == Ok::<
                    DatabaseView,
                    AppErrorView,
                >(final(store)@),
                Err(e) => Room::spec_unregister_connection(old(store)@, *id, *room_id) == Err::<
                    DatabaseView,
                    AppErrorView,
                >(e@) && final(store)@ == old(store)@,
            },
    {
        let Some(room) = store.find_room_by_id(*room_id) else {
            return Err(AppError::from_template(AppErrorTemplate::NotFound(None)));
        };
        let remaining = remove_connection(&room.active_connection_ids, *id);
        if remaining.len() == 0 {
            store.delete_users_by_room_id(*room_id);
            proof {
                assert(store@.room_at(old(store)@.room_index(*room_id), *room_id));
            }
            match store.delete_room(*room_id) {
                Ok(()) => Ok(()),
                Err(e) => Err(AppError::from_store_error(e)),
            }
        } else {
            match store.set_room_connections(*room_id, remaining) {
                Ok(()) => Ok(()),
                Err(e) => Err(AppError::from_store_error(e)),
            }
        }
    }

    /// Accepts a name of 3 to 32 characters; a shorter one is
    /// `RoomNameTooShort`, a longer one `RoomNameTooLong`.
    pub fn check_name_length(name: &str) -> (result: Result<(), AppError>)
        ensures
            match result {
                Ok(()) => Room::spec_check_name_length(name@) == Ok::<(), AppErrorView>(()),
                Err(e) => Room::spec_check_name_length(name@) == Err::<(), AppErrorView>(e@),
            },
    {
        let length = name.unicode_len();
        if length < ROOM_NAME_MIN_LENGTH {
            Err(AppError::from_template(AppErrorTemplate::RoomNameTooShort(None)))
        } else if length > ROOM_NAME_MAX_LENGTH {
            Err(AppError::from_template(AppErrorTemplate::RoomNameTooLong(None)))
        } else {
            Ok(())
        }
    }
}

/// Unregistering the last connection of a room deletes the room and every
/// user of it, and nothing else: the other rooms and the users of the
/// other rooms stay as they are.
pub proof fn lemma_unregister_last_connection(before: DatabaseView, id: i64, room_id: i64)
    requires
        before.wf(),
        before.has_room(room_id),
        without_connection(before.room(room_id).active_connection_ids, id).len() == 0,
    ensures
        Room::spec_unregister_connection(before, id, room_id) is Ok,
        ({
            let after = Room::spec_unregister_connection(before, id, room_id)->Ok_0;
            &&& !after.has_room(room_id)
            &&& forall|i: int|
                0 <= i < after.users.len() ==> (#[trigger] after.users[i]).room_id != room_id
            &&& forall|i: int|
                0 <= i < before.rooms.len() && before.rooms[i].id != room_id ==> exists|j: int|
                    0 <= j < after.rooms.len() && after.rooms[j] == #[trigger] before.rooms[i]
            &&& after.users == before.users.filter(crate::database::user_outside_room(room_id))
            &&& forall|other: i64|
                other != room_id ==> #[trigger] after.users_of_room(other)
                    == before.users_of_room(other)
            &&& after.sessions == before.sessions
            &&& after.messages == before.messages
        }),
{
    let after = Room::spec_unregister_connection(before, id, room_id)->Ok_0;
    let index = before.room_index(room_id);
    assert(before.room_at(index, room_id));
    assert forall|j: int| 0 <= j < after.rooms.len() implies after.rooms[j].id != room_id by {
        if j < index {
            assert(after.rooms[j] == before.rooms[j]);
        } else {
            assert(after.rooms[j] == before.rooms[j + 1]);
        }
    }
    assert forall|i: int|
        0 <= i < before.rooms.len() && before.rooms[i].id != room_id implies exists|j: int|
        0 <= j < after.rooms.len() && after.rooms[j] == #[trigger] before.rooms[i] by {
        if i < index {
            assert(after.rooms[i] == before.rooms[i]);
        } else {
            assert(after.rooms[i - 1] == before.rooms[i]);
        }
    }
    assert forall|i: int| 0 <= i < after.users.len() implies (#[trigger] after.users[i]).room_id
        != room_id by {
        before.users.lemma_filter_pred(crate::database::user_outside_room(room_id), i);
    }
    assert forall|other: i64| other != room_id implies #[trigger] after.users_of_room(other)
        == before.users_of_room(other) by {
        lemma_filter_twice(before.users, room_id, other);
    }
}

/// The users of a room are not touched by the deletion of the users of
/// another room.
proof fn lemma_filter_twice(users: Seq<crate::services::user::model::UserView>, deleted: i64, other: i64)
    requires
        deleted != other,
    ensures
        users.filter(crate::database::user_outside_room(deleted)).filter(
            crate::database::user_in_room(other),
        ) == users.filter(crate::database::user_in_room(other)),
    decreases users.len(),
{
    let outside = crate::database::user_outside_room(deleted);
    let inside = crate::database::user_in_room(other);
    if users.len() == 0 {
        assert(users.filter(outside) =~= Seq::empty());
        assert(users.filter(inside) =~= Seq::empty());
        assert(users.filter(outside).filter(inside) =~= Seq::empty());
    } else {
        lemma_filter_twice(users.drop_last(), deleted, other);
        assert(users.drop_last().push(users.last()) =~= users);
        users.drop_last().lemma_filter_push(users.last(), outside);
        users.drop_last().lemma_filter_push(users.last(), inside);
        if outside(users.last()) {
            users.drop_last().filter(outside).lemma_filter_push(users.last(), inside);
        }
    }
}

/// Unregistering a connection of a room that keeps another connection
/// leaves the room, with its other connections, and every user.
pub proof fn lemma_unregister_other_connection(before: DatabaseView, id: i64, room_id: i64)
    requires
        before.wf(),
        before.has_room(room_id),
        without_connection(before.room(room_id).active_connection_ids, id).len() > 0,
    ensures
        Room::spec_unregister_connection(before, id, room_id) is Ok,
        ({
            let after = Room::spec_unregister_connection(before, id, room_id)->Ok_0;
            &&& after.has_room(room_id)
            &&& after.room(room_id) == (RoomView {
                active_connection_ids: without_connection(
                    before.room(room_id).active_connection_ids,
                    id,
                ),
                ..before.room(room_id)
            })
            &&& after.rooms.len() == before.rooms.len()
            &&& forall|i: int|
                0 <= i < before.rooms.len() && before.rooms[i].id != room_id
                    ==> #[trigger] after.rooms[i] == before.rooms[i]
            &&& after.users == before.users
            &&& after.sessions == before.sessions
            &&& after.messages == before.messages
        }),
{
    let after = Room::spec_unregister_connection(before, id, room_id)->Ok_0;
    let index = before.room_index(room_id);
    assert(before.room_at(index, room_id));
    assert(after.room_at(index, room_id));
    let found = after.room_index(room_id);
    assert(after.rooms[found].id == after.rooms[index].id);
    assert(before.rooms[found].id == before.rooms[index].id);
}

/// A room whose only connection is `id` is left without connections when
/// `id` is taken out.
pub proof fn lemma_only_connection(id: i64)
    ensures
        without_connection(seq![id], id).len() == 0,
{
    let pred = crate::database::other_connection(id);
    assert(seq![id] =~= Seq::<i64>::empty().push(id));
    Seq::<i64>::empty().lemma_filter_push(id, pred);
    assert(Seq::<i64>::empty().filter(pred) =~= Seq::empty()) by {
        Seq::<i64>::empty().lemma_filter_len(pred);
    }
}

} // verus!
