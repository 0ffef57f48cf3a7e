//! The domain store: four tables kept in insertion order, with the unique
//! keys the entities rely on.

use vstd::prelude::*;
use vstd::string::*;

use crate::error::StoreError;
use crate::services::message::model::{Message, MessageView};
use crate::services::room::model::{Room, RoomView};
use crate::services::session::model::{Session, SessionView};
use crate::services::user::model::{User, UserView};

verus! {

/// The store. Its tables are private, so every value of the type has been
/// built by the functions of this module, which keep the keys unique.
pub struct Database {
    sessions: Vec<Session>,
    rooms: Vec<Room>,
    users: Vec<User>,
    messages: Vec<Message>,
}

/// The mathematical value of a [`Database`]: each table as a sequence, in
/// the order in which the records were stored.
pub ghost struct DatabaseView {
    pub sessions: Seq<SessionView>,
    pub rooms: Seq<RoomView>,
    pub users: Seq<UserView>,
    pub messages: Seq<MessageView>,
}

impl View for Database {
    type V = DatabaseView;

    closed spec fn view(&self) -> DatabaseView {
        DatabaseView {
            sessions: session_views(self.sessions@),
            rooms: room_views(self.rooms@),
            users: user_views(self.users@),
            messages: message_views(self.messages@),
        }
    }
}

/// The values of a sequence of sessions.
pub open spec fn session_views(sessions: Seq<Session>) -> Seq<SessionView> {
    sessions.map_values(|s: Session| s@)
}

/// The values of a sequence of rooms.
pub open spec fn room_views(rooms: Seq<Room>) -> Seq<RoomView> {
    rooms.map_values(|r: Room| r@)
}

/// The values of a sequence of users.
pub open spec fn user_views(users: Seq<User>) -> Seq<UserView> {
    users.map_values(|u: User| u@)
}

/// The values of a sequence of messages.
pub open spec fn message_views(messages: Seq<Message>) -> Seq<MessageView> {
    messages.map_values(|m: Message| m@)
}

/// Holds of a connection id other than `id`.
pub open spec fn other_connection(id: i64) -> spec_fn(i64) -> bool {
    |c: i64| c != id
}

/// The connection ids of `ids` other than `id`, in their order.
pub open spec fn without_connection(ids: Seq<i64>, id: i64) -> Seq<i64> {
    ids.filter(other_connection(id))
}

/// Holds of a user of the room `room_id`.
pub open spec fn user_in_room(room_id: i64) -> spec_fn(UserView) -> bool {
    |u: UserView| u.room_id == room_id
}

/// Holds of a user of any room but `room_id`.
pub open spec fn user_outside_room(room_id: i64) -> spec_fn(UserView) -> bool {
    |u: UserView| u.room_id != room_id
}

/// Holds of a message posted to the room `room_id`.
pub open spec fn message_in_room(room_id: i64) -> spec_fn(MessageView) -> bool {
    |m: MessageView| m.room_id == room_id
}

/// An index at which `rooms` holds a room with this id, where there is one.
pub open spec fn index_of_room(rooms: Seq<RoomView>, id: i64) -> int {
    choose|i: int| 0 <= i < rooms.len() && rooms[i].id == id
}

/// An index at which `users` holds a user with this id, where there is one.
pub open spec fn index_of_user(users: Seq<UserView>, id: i64) -> int {
    choose|i: int| 0 <= i < users.len() && users[i].id == id
}

impl DatabaseView {
    // Sessions

    pub open spec fn session_at(self, i: int, id: i64) -> bool {
        0 <= i < self.sessions.len() && self.sessions[i].id == id
    }

    pub open spec fn session_token_at(self, i: int, token: Seq<char>) -> bool {
        0 <= i < self.sessions.len() && self.sessions[i].token == token
    }

    /// Whether a session has this id.
    pub open spec fn has_session(self, id: i64) -> bool {
        exists|i: int| self.session_at(i, id)
    }

    /// Whether a session has this token.
    pub open spec fn has_session_token(self, token: Seq<char>) -> bool {
        exists|i: int| self.session_token_at(i, token)
    }

    /// The session with this token, where there is one.
    pub open spec fn session_with_token(self, token: Seq<char>) -> SessionView {
        self.sessions[choose|i: int| self.session_token_at(i, token)]
    }

    /// Session ids and session tokens are unique.
    pub open spec fn sessions_wf(self) -> bool {
        &&& forall|i: int, j: int|
            #![trigger self.sessions[i], self.sessions[j]]
            0 <= i < self.sessions.len() && 0 <= j < self.sessions.len() && self.sessions[i].id
                == self.sessions[j].id ==> i == j
        &&& forall|i: int, j: int|
            #![trigger self.sessions[i], self.sessions[j]]
            0 <= i < self.sessions.len() && 0 <= j < self.sessions.len()
                && self.sessions[i].token == self.sessions[j].token ==> i == j
    }

    /// The store after a session is inserted, or why it is refused: its id
    /// or its token is already stored.
    pub open spec fn insert_session(self, session: SessionView) -> Result<
        DatabaseView,
        StoreError,
    > {
        if self.has_session(session.id) || self.has_session_token(session.token) {
            Err(StoreError::DuplicateKey)
        } else {
            Ok(DatabaseView { sessions: self.sessions.push(session), ..self })
        }
    }

    // Rooms

    pub open spec fn room_at(self, i: int, id: i64) -> bool {
        0 <= i < self.rooms.len() && self.rooms[i].id == id
    }

    pub open spec fn room_named_at(self, i: int, name: Seq<char>) -> bool {
        0 <= i < self.rooms.len() && self.rooms[i].name == name
    }

    /// Whether a room has this id.
    pub open spec fn has_room(self, id: i64) -> bool {
        exists|i: int| self.room_at(i, id)
    }

    /// Whether a room has this name.
    pub open spec fn has_room_named(self, name: Seq<char>) -> bool {
        exists|i: int| self.room_named_at(i, name)
    }

    /// Where the room with this id stands, where there is one.
    pub open spec fn room_index(self, id: i64) -> int {
        index_of_room(self.rooms, id)
    }

    /// The room with this id, where there is one.
    pub open spec fn room(self, id: i64) -> RoomView {
        self.rooms[self.room_index(id)]
    }

    /// The room with this name, where there is one.
    pub open spec fn room_named(self, name: Seq<char>) -> RoomView {
        self.rooms[choose|i: int| self.room_named_at(i, name)]
    }

    /// Room ids and room names are unique.
    pub open spec fn rooms_wf(self) -> bool {
        &&& forall|i: int, j: int|
            #![trigger self.rooms[i], self.rooms[j]]
            0 <= i < self.rooms.len() && 0 <= j < self.rooms.len() && self.rooms[i].id
                == self.rooms[j].id ==> i == j
        &&& forall|i: int, j: int|
            #![trigger self.rooms[i], self.rooms[j]]
            0 <= i < self.rooms.len() && 0 <= j < self.rooms.len() && self.rooms[i].name
                == self.rooms[j].name ==> i == j
    }

    /// The store after a room is inserted, or why it is refused: its id or
    /// its name is already stored.
    pub open spec fn insert_room(self, room: RoomView) -> Result<DatabaseView, StoreError> {
        if self.has_room(room.id) || self.has_room_named(room.name) {
            Err(StoreError::DuplicateKey)
        } else {
            Ok(DatabaseView { rooms: self.rooms.push(room), ..self })
        }
    }

    /// The store after the connections of the room `id` are replaced by
    /// `ids`; refused where no room has that id.
    pub open spec fn set_room_connections(self, id: i64, ids: Seq<i64>) -> Result<
        DatabaseView,
        StoreError,
    > {
        if self.has_room(id) {
            Ok(
                DatabaseView {
                    rooms: self.rooms.update(
                        self.room_index(id),
                        RoomView { active_connection_ids: ids, ..self.room(id) },
                    ),
                    ..self
                },
            )
        } else {
            Err(StoreError::RecordNotFound)
        }
    }

    /// The store after the room `id` is deleted; refused where no room has
    /// that id.
    pub open spec fn delete_room(self, id: i64) -> Result<DatabaseView, StoreError> {
        if self.has_room(id) {
            Ok(DatabaseView { rooms: self.rooms.remove(self.room_index(id)), ..self })
        } else {
            Err(StoreError::RecordNotFound)
        }
    }

    // Users

    pub open spec fn user_at(self, i: int, id: i64) -> bool {
        0 <= i < self.users.len() && self.users[i].id == id
    }

    pub open spec fn user_named_at(self, i: int, username: Seq<char>, room_id: i64) -> bool {
        0 <= i < self.users.len() && self.users[i].username == username && self.users[i].room_id
            == room_id
    }

    /// Whether a user has this id.
    pub open spec fn has_user(self, id: i64) -> bool {
        exists|i: int| self.user_at(i, id)
    }

    /// Whether a user has this name in this room.
    pub open spec fn has_user_named(self, username: Seq<char>, room_id: i64) -> bool {
        exists|i: int| self.user_named_at(i, username, room_id)
    }

    /// Where the user with this id stands, where there is one.
    pub open spec fn user_index(self, id: i64) -> int {
        index_of_user(self.users, id)
    }

    /// The user with this id, where there is one.
    pub open spec fn user(self, id: i64) -> UserView {
        self.users[self.user_index(id)]
    }

    /// The user with this name in this room, where there is one.
    pub open spec fn user_named(self, username: Seq<char>, room_id: i64) -> UserView {
        self.users[choose|i: int| self.user_named_at(i, username, room_id)]
    }

    /// The users of a room, in the order in which they were stored.
    pub open spec fn users_of_room(self, room_id: i64) -> Seq<UserView> {
        self.users.filter(user_in_room(room_id))
    }

    /// User ids are unique, and so is a user name within a room.
    pub open spec fn users_wf(self) -> bool {
        &&& forall|i: int, j: int|
            #![trigger self.users[i], self.users[j]]
            0 <= i < self.users.len() && 0 <= j < self.users.len() && self.users[i].id
                == self.users[j].id ==> i == j
        &&& forall|i: int, j: int|
            #![trigger self.users[i], self.users[j]]
            0 <= i < self.users.len() && 0 <= j < self.users.len() && self.users[i].username
                == self.users[j].username && self.users[i].room_id == self.users[j].room_id ==> i
                == j
    }

    /// The store after a user is inserted, or why it is refused: its id, or
    /// its name within its room, is already stored.
    pub open spec fn insert_user(self, user: UserView) -> Result<DatabaseView, StoreError> {
        if self.has_user(user.id) || self.has_user_named(user.username, user.room_id) {
            Err(StoreError::DuplicateKey)
        } else {
            Ok(DatabaseView { users: self.users.push(user), ..self })
        }
    }

    /// The store after the connections of the user `id` are replaced by
    /// `ids`; refused where no user has that id.
    pub open spec fn set_user_connections(self, id: i64, ids: Seq<i64>) -> Result<
        DatabaseView,
        StoreError,
    > {
        if self.has_user(id) {
            Ok(
                DatabaseView {
                    users: self.users.update(
                        self.user_index(id),
                        UserView { active_connection_ids: ids, ..self.user(id) },
                    ),
                    ..self
                },
            )
        } else {
            Err(StoreError::RecordNotFound)
        }
    }

    /// The store after every user of the room `room_id` is deleted.
    pub open spec fn delete_users_of_room(self, room_id: i64) -> DatabaseView {
        DatabaseView { users: self.users.filter(user_outside_room(room_id)), ..self }
    }

    // Messages

    pub open spec fn message_at(self, i: int, id: i64) -> bool {
        0 <= i < self.messages.len() && self.messages[i].id == id
    }

    /// Whether a message has this id.
    pub open spec fn has_message(self, id: i64) -> bool {
        exists|i: int| self.message_at(i, id)
    }

    /// The messages of a room, in the order in which they were posted.
    pub open spec fn messages_of_room(self, room_id: i64) -> Seq<MessageView> {
        self.messages.filter(message_in_room(room_id))
    }

    /// Message ids are unique.
    pub open spec fn messages_wf(self) -> bool {
        forall|i: int, j: int|
            #![trigger self.messages[i], self.messages[j]]
            0 <= i < self.messages.len() && 0 <= j < self.messages.len() && self.messages[i].id
                == self.messages[j].id ==> i == j
    }

    /// The store after a message is inserted, or why it is refused: its id
    /// is already stored.
    pub open spec fn insert_message(self, message: MessageView) -> Result<
        DatabaseView,
        StoreError,
    > {
        if self.has_message(message.id) {
            Err(StoreError::DuplicateKey)
        } else {
            Ok(DatabaseView { messages: self.messages.push(message), ..self })
        }
    }

    /// The unique keys hold in every table.
    pub open spec fn wf(self) -> bool {
        &&& self.sessions_wf()
        &&& self.rooms_wf()
        &&& self.users_wf()
        &&& self.messages_wf()
    }

    /// A store without records.
    pub open spec fn is_empty(self) -> bool {
        &&& self.sessions.len() == 0
        &&& self.rooms.len() == 0
        &&& self.users.len() == 0
        &&& self.messages.len() == 0
    }
}

impl DatabaseView {
    /// In a store with unique keys, the room at an index is the room of its
    /// id and the room of its name.
    pub proof fn lemma_room_at(self, i: int)
        requires
            self.wf(),
            0 <= i < self.rooms.len(),
        ensures
            self.has_room(self.rooms[i].id),
            self.room_index(self.rooms[i].id) == i,
            self.room(self.rooms[i].id) == self.rooms[i],
            self.has_room_named(self.rooms[i].name),
            self.room_named(self.rooms[i].name) == self.rooms[i],
    {
        let room = self.rooms[i];
        assert(self.room_at(i, room.id));
        assert(self.room_named_at(i, room.name));
        let by_id = self.room_index(room.id);
        assert(self.rooms[by_id].id == self.rooms[i].id);
        let by_name = choose|k: int| self.room_named_at(k, room.name);
        assert(self.rooms[by_name].name == self.rooms[i].name);
    }

    /// In a store with unique keys, the user at an index is the user of its
    /// id and the user of its name in its room.
    pub proof fn lemma_user_at(self, i: int)
        requires
            self.wf(),
            0 <= i < self.users.len(),
        ensures
            self.has_user(self.users[i].id),
            self.user_index(self.users[i].id) == i,
            self.user(self.users[i].id) == self.users[i],
            self.has_user_named(self.users[i].username, self.users[i].room_id),
            self.user_named(self.users[i].username, self.users[i].room_id) == self.users[i],
    {
        let user = self.users[i];
        assert(self.user_at(i, user.id));
        assert(self.user_named_at(i, user.username, user.room_id));
        let by_id = self.user_index(user.id);
        assert(self.users[by_id].id == self.users[i].id);
        let by_name = choose|k: int| self.user_named_at(k, user.username, user.room_id);
        assert(self.users[by_name].username == self.users[i].username);
    }

    /// Inserting a room keeps the keys unique.
    pub proof fn lemma_insert_room_wf(self, room: RoomView)
        requires
            self.wf(),
            self.insert_room(room) is Ok,
        ensures
            self.insert_room(room)->Ok_0.wf(),
    {
        let after = self.insert_room(room)->Ok_0;
        assert forall|i: int| 0 <= i < self.rooms.len() implies self.rooms[i].id != room.id
            && self.rooms[i].name != room.name by {
            assert(!self.room_at(i, room.id));
            assert(!self.room_named_at(i, room.name));
        }
    }

    /// Inserting a user keeps the keys unique.
    pub proof fn lemma_insert_user_wf(self, user: UserView)
        requires
            self.wf(),
            self.insert_user(user) is Ok,
        ensures
            self.insert_user(user)->Ok_0.wf(),
    {
        let after = self.insert_user(user)->Ok_0;
        assert forall|i: int| 0 <= i < self.users.len() implies self.users[i].id != user.id && !(
        self.users[i].username == user.username && self.users[i].room_id == user.room_id) by {
            assert(!self.user_at(i, user.id));
            assert(!self.user_named_at(i, user.username, user.room_id));
        }
    }

    /// Replacing the connections of a room keeps the keys unique.
    pub proof fn lemma_set_room_connections_wf(self, id: i64, ids: Seq<i64>)
        requires
            self.wf(),
            self.has_room(id),
        ensures
            self.set_room_connections(id, ids)->Ok_0.wf(),
    {
        let i = self.room_index(id);
        assert(self.room_at(i, id));
    }

    /// Replacing the connections of a user keeps the keys unique.
    pub proof fn lemma_set_user_connections_wf(self, id: i64, ids: Seq<i64>)
        requires
            self.wf(),
            self.has_user(id),
        ensures
            self.set_user_connections(id, ids)->Ok_0.wf(),
    {
        let i = self.user_index(id);
        assert(self.user_at(i, id));
    }
}

/// A copy of `ids` without `id`.
pub fn remove_connection(ids: &Vec<i64>, id: i64) -> (result: Vec<i64>)
    ensures
        result@ == without_connection(ids@, id),
{
    let mut result: Vec<i64> = Vec::new();
    let mut i: usize = 0;
    while i < ids.len()
        invariant
            i <= ids.len(),
            result@ == without_connection(ids@.take(i as int), id),
        decreases ids.len() - i,
    {
        proof {
            ids@.lemma_take_succ_push(i as int);
            ids@.take(i as int).lemma_filter_push(ids@[i as int], other_connection(id));
        }
        if ids[i] != id {
            result.push(ids[i]);
        }
        i += 1;
    }
    proof {
        ids@.lemma_take_len();
    }
    result
}

impl Database {
    /// What every store keeps: the unique keys of its tables.
    #[verifier::type_invariant]
    pub open spec fn inv(self) -> bool {
        self@.wf()
    }

    /// An empty store.
    pub fn new() -> (result: Database)
        ensures
            result@.is_empty(),
    {
        Database { sessions: Vec::new(), rooms: Vec::new(), users: Vec::new(), messages: Vec::new() }
    }

    // Sessions

    fn session_position(&self, id: i64) -> (result: Option<usize>)
        ensures
            match result {
                Some(i) => self@.session_at(i as int, id),
                None => !self@.has_session(id),
            },
    {
        let mut i: usize = 0;
        while i < self.sessions.len()
            invariant
                i <= self.sessions.len(),
                forall|j: int| 0 <= j < i ==> self.sessions@[j].id != id,
            decreases self.sessions.len() - i,
        {
            if self.sessions[i].id == id {
                return Some(i);
            }
            i += 1;
        }
        None
    }

    fn session_token_position(&self, token: &String) -> (result: Option<usize>)
        ensures
            match result {
                Some(i) => self@.session_token_at(i as int, token@),
                None => !self@.has_session_token(token@),
            },
    {
        let mut i: usize = 0;
        while i < self.sessions.len()
            invariant
                i <= self.sessions.len(),
                forall|j: int| 0 <= j < i ==> self.sessions@[j].token@ != token@,
            decreases self.sessions.len() - i,
        {
            if self.sessions[i].token == *token {
                return Some(i);
            }
            i += 1;
        }
        None
    }

    /// Stores a session, unless its id or its token is taken.
    pub fn insert_session(&mut self, session: Session) -> (result: Result<(), StoreError>)
        ensures
            match result {
                Ok(()) => old(self)@.insert_session(session@) == Ok::<DatabaseView, StoreError>(
                    final(self)@,
                ),
                Err(e) => old(self)@.insert_session(session@) == Err::<DatabaseView, StoreError>(e)
                    && final(self)@ == old(self)@,
            },
    {
        proof {
            use_type_invariant(&*self);
        }
        if self.session_position(session.id).is_some() || self.session_token_position(
            &session.token,
        ).is_some() {
            return Err(StoreError::DuplicateKey);
        }
        let ghost before = self@;
        let ghost view = session@;
        let mut sessions = Vec::new();
        std::mem::swap(&mut sessions, &mut self.sessions);
        sessions.push(session);
        proof {
            assert(session_views(sessions@) =~= before.sessions.push(view));
            assert forall|i: int| 0 <= i < before.sessions.len() implies before.sessions[i].id
                != view.id && before.sessions[i].token != view.token by {
                assert(!before.session_at(i, view.id));
                assert(!before.session_token_at(i, view.token));
            }
        }
        self.sessions = sessions;
        Ok(())
    }

    /// The session with this token, if one is stored.
    pub fn find_session_by_token(&self, token: &str) -> (result: Option<Session>)
        ensures
            match result {
                Some(session) => self@.has_session_token(token@) && session@
                    == self@.session_with_token(token@),
                None => !self@.has_session_token(token@),
            },
    {
        proof {
            use_type_invariant(self);
        }
        let token = String::from_str(token);
        match self.session_token_position(&token) {
            Some(i) => {
                proof {
                    let k = choose|k: int| self@.session_token_at(k, token@);
                    assert(self@.sessions[k].token == self@.sessions[i as int].token);
                }
                Some(self.sessions[i].clone())
            },
            None => None,
        }
    }

    // Rooms

    fn room_position(&self, id: i64) -> (result: Option<usize>)
        ensures
            match result {
                Some(i) => self@.room_at(i as int, id) && i as int == self@.room_index(id),
                None => !self@.has_room(id),
            },
    {
        proof {
            use_type_invariant(self);
        }
        let mut i: usize = 0;
        while i < self.rooms.len()
            invariant
                i <= self.rooms.len(),
                self@.wf(),
                forall|j: int| 0 <= j < i ==> self.rooms@[j].id != id,
            decreases self.rooms.len() - i,
        {
            if self.rooms[i].id == id {
                proof {
                    assert(self@.room_at(i as int, id));
                    let k = self@.room_index(id);
                    assert(self@.rooms[k].id == self@.rooms[i as int].id);
                }
                return Some(i);
            }
            i += 1;
        }
        None
    }

    fn room_name_position(&self, name: &String) -> (result: Option<usize>)
        ensures
            match result {
                Some(i) => self@.room_named_at(i as int, name@),
                None => !self@.has_room_named(name@),
            },
    {
        let mut i: usize = 0;
        while i < self.rooms.len()
            invariant
                i <= self.rooms.len(),
                forall|j: int| 0 <= j < i ==> self.rooms@[j].name@ != name@,
            decreases self.rooms.len() - i,
        {
            if self.rooms[i].name == *name {
                return Some(i);
            }
            i += 1;
        }
        None
    }

    /// Stores a room, unless its id or its name is taken.
    pub fn insert_room(&mut self, room: Room) -> (result: Result<(), StoreError>)
        ensures
            match result {
                Ok(()) => old(self)@.insert_room(room@) == Ok::<DatabaseView, StoreError>(
                    final(self)@,
                ),
                Err(e) => old(self)@.insert_room(room@) == Err::<DatabaseView, StoreError>(e)
                    && final(self)@ == old(self)@,
            },
    {
        proof {
            use_type_invariant(&*self);
        }
        if self.room_position(room.id).is_some() || self.room_name_position(&room.name).is_some() {
            return Err(StoreError::DuplicateKey);
        }
        let ghost before = self@;
        let ghost view = room@;
        let mut rooms = Vec::new();
        std::mem::swap(&mut rooms, &mut self.rooms);
        rooms.push(room);
        proof {
            assert(room_views(rooms@) =~= before.rooms.push(view));
            assert forall|i: int| 0 <= i < before.rooms.len() implies before.rooms[i].id
                != view.id && before.rooms[i].name != view.name by {
                assert(!before.room_at(i, view.id));
                assert(!before.room_named_at(i, view.name));
            }
        }
        self.rooms = rooms;
        Ok(())
    }

    /// The room with this name, if one is stored.
    pub fn find_room_by_name(&self, name: &str) -> (result: Option<Room>)
        ensures
            match result {
                Some(room) => self@.has_room_named(name@) && room@ == self@.room_named(name@),
                None => !self@.has_room_named(name@),
            },
    {
        proof {
            use_type_invariant(self);
        }
        let name = String::from_str(name);
        match self.room_name_position(&name) {
            Some(i) => {
                proof {
                    let k = choose|k: int| self@.room_named_at(k, name@);
                    assert(self@.rooms[k].name == self@.rooms[i as int].name);
                }
                Some(self.rooms[i].clone())
            },
            None => None,
        }
    }

    /// The room with this id, if one is stored.
    pub fn find_room_by_id(&self, id: i64) -> (result: Option<Room>)
        ensures
            match result {
                Some(room) => self@.has_room(id) && room@ == self@.room(id),
                None => !self@.has_room(id),
            },
    {
        match self.room_position(id) {
            Some(i) => Some(self.rooms[i].clone()),
            None => None,
        }
    }

    /// Replaces the connections of the room `id`.
    pub fn set_room_connections(&mut self, id: i64, ids: Vec<i64>) -> (result: Result<
        (),
        StoreError,
    >)
        ensures
            match result {
                Ok(()) => old(self)@.set_room_connections(id, ids@) == Ok::<
                    DatabaseView,
                    StoreError,
                >(final(self)@),
                Err(e) => old(self)@.set_room_connections(id, ids@) == Err::<
                    DatabaseView,
                    StoreError,
                >(e) && final(self)@ == old(self)@,
            },
    {
        proof {
            use_type_invariant(&*self);
        }
        let Some(i) = self.room_position(id) else {
            return Err(StoreError::RecordNotFound);
        };
        let ghost before = self@;
        let mut rooms = Vec::new();
        std::mem::swap(&mut rooms, &mut self.rooms);
        let mut room = rooms.remove(i);
        room.active_connection_ids = ids;
        rooms.insert(i, room);
        proof {
            assert(room_views(rooms@) =~= before.rooms.update(
                i as int,
                RoomView { active_connection_ids: ids@, ..before.room(id) },
            ));
        }
        self.rooms = rooms;
        Ok(())
    }

    /// Deletes the room `id`.
    pub fn delete_room(&mut self, id: i64) -> (result: Result<(), StoreError>)
        ensures
            match result {
                Ok(()) => old(self)@.delete_room(id) == Ok::<DatabaseView, StoreError>(
                    final(self)@,
                ),
                Err(e) => old(self)@.delete_room(id) == Err::<DatabaseView, StoreError>(e)
                    && final(self)@ == old(self)@,
            },
    {
        proof {
            use_type_invariant(&*self);
        }
        let Some(i) = self.room_position(id) else {
            return Err(StoreError::RecordNotFound);
        };
        let ghost before = self@;
        let mut rooms = Vec::new();
        std::mem::swap(&mut rooms, &mut self.rooms);
        rooms.remove(i);
        proof {
            assert(room_views(rooms@) =~= before.rooms.remove(i as int));
        }
        self.rooms = rooms;
        Ok(())
    }

    // Users

    fn user_position(&self, id: i64) -> (result: Option<usize>)
        ensures
            match result {
                Some(i) => self@.user_at(i as int, id) && i as int == self@.user_index(id),
                None => !self@.has_user(id),
            },
    {
        proof {
            use_type_invariant(self);
        }
        let mut i: usize = 0;
        while i < self.users.len()
            invariant
                i <= self.users.len(),
                self@.wf(),
                forall|j: int| 0 <= j < i ==> self.users@[j].id != id,
            decreases self.users.len() - i,
        {
            if self.users[i].id == id {
                proof {
                    assert(self@.user_at(i as int, id));
                    let k = self@.user_index(id);
                    assert(self@.users[k].id == self@.users[i as int].id);
                }
                return Some(i);
            }
            i += 1;
        }
        None
    }

    fn user_name_position(&self, username: &String, room_id: i64) -> (result: Option<usize>)
        ensures
            match result {
                Some(i) => self@.user_named_at(i as int, username@, room_id),
                None => !self@.has_user_named(username@, room_id),
            },
    {
        let mut i: usize = 0;
        while i < self.users.len()
            invariant
                i <= self.users.len(),
                forall|j: int|
                    0 <= j < i ==> !(self.users@[j].username@ == username@
                        && self.users@[j].room_id == room_id),
            decreases self.users.len() - i,
        {
            if self.users[i].room_id == room_id && self.users[i].username == *username {
                return Some(i);
            }
            i += 1;
        }
        None
    }

    /// Stores a user, unless its id, or its name within its room, is taken.
    pub fn insert_user(&mut self, user: User) -> (result: Result<(), StoreError>)
        ensures
            match result {
                Ok(()) => old(self)@.insert_user(user@) == Ok::<DatabaseView, StoreError>(
                    final(self)@,
                ),
                Err(e) => old(self)@.insert_user(user@) == Err::<DatabaseView, StoreError>(e)
                    && final(self)@ == old(self)@,
            },
    {
        proof {
            use_type_invariant(&*self);
        }
        if self.user_position(user.id).is_some() || self.user_name_position(
            &user.username,
            user.room_id,
        ).is_some() {
            return Err(StoreError::DuplicateKey);
        }
        let ghost before = self@;
        let ghost view = user@;
        let mut users = Vec::new();
        std::mem::swap(&mut users, &mut self.users);
        users.push(user);
        proof {
            assert(user_views(users@) =~= before.users.push(view));
            assert forall|i: int| 0 <= i < before.users.len() implies before.users[i].id
                != view.id && !(before.users[i].username == view.username
                && before.users[i].room_id == view.room_id) by {
                assert(!before.user_at(i, view.id));
                assert(!before.user_named_at(i, view.username, view.room_id));
            }
        }
        self.users = users;
        Ok(())
    }

    /// The user with this id, if one is stored.
    pub fn find_user_by_id(&self, id: i64) -> (result: Option<User>)
        ensures
            match result {
                Some(user) => self@.has_user(id) && user@ == self@.user(id),
                None => !self@.has_user(id),
            },
    {
        match self.user_position(id) {
            Some(i) => Some(self.users[i].clone()),
            None => None,
        }
    }

    /// The user with this name in this room, if one is stored.
    pub fn find_user_by_username_and_room_id(&self, username: &str, room_id: i64) -> (result:
        Option<User>)
        ensures
            match result {
                Some(user) => self@.has_user_named(username@, room_id) && user@
                    == self@.user_named(username@, room_id),
                None => !self@.has_user_named(username@, room_id),
            },
    {
        proof {
            use_type_invariant(self);
        }
        let username = String::from_str(username);
        match self.user_name_position(&username, room_id) {
            Some(i) => {
                proof {
                    let k = choose|k: int| self@.user_named_at(k, username@, room_id);
                    assert(self@.users[k].username == self@.users[i as int].username);
                }
                Some(self.users[i].clone())
            },
            None => None,
        }
    }

    /// The users of a room, in the order in which they were stored.
    pub fn find_users_by_room_id(&self, room_id: i64) -> (result: Vec<User>)
        ensures
            user_views(result@) == self@.users_of_room(room_id),
    {
        let ghost all = self@.users;
        let mut result: Vec<User> = Vec::new();
        let mut i: usize = 0;
        while i < self.users.len()
            invariant
                i <= self.users.len(),
                all == user_views(self.users@),
                user_views(result@) == all.take(i as int).filter(
                    user_in_room(room_id),
                ),
            decreases self.users.len() - i,
        {
            proof {
                all.lemma_take_succ_push(i as int);
                all.take(i as int).lemma_filter_push(all[i as int], user_in_room(room_id));
            }
            if self.users[i].room_id == room_id {
                let ghost before = user_views(result@);
                let user = self.users[i].clone();
                result.push(user);
                assert(user_views(result@) =~= before.push(all[i as int]));
            }
            i += 1;
        }
        proof {
            all.lemma_take_len();
        }
        result
    }

    /// Replaces the connections of the user `id`.
    pub fn set_user_connections(&mut self, id: i64, ids: Vec<i64>) -> (result: Result<
        (),
        StoreError,
    >)
        ensures
            match result {
                Ok(()) => old(self)@.set_user_connections(id, ids@) == Ok::<
                    DatabaseView,
                    StoreError,
                >(final(self)@),
                Err(e) => old(self)@.set_user_connections(id, ids@) == Err::<
                    DatabaseView,
                    StoreError,
                >(e) && final(self)@ == old(self)@,
            },
    {
        proof {
            use_type_invariant(&*self);
        }
        let Some(i) = self.user_position(id) else {
            return Err(StoreError::RecordNotFound);
        };
        let ghost before = self@;
        let mut users = Vec::new();
        std::mem::swap(&mut users, &mut self.users);
        let mut user = users.remove(i);
        user.active_connection_ids = ids;
        users.insert(i, user);
        proof {
            assert(user_views(users@) =~= before.users.update(
                i as int,
                UserView { active_connection_ids: ids@, ..before.user(id) },
            ));
        }
        self.users = users;
        Ok(())
    }

    /// Deletes every user of the room `room_id`.
    pub fn delete_users_by_room_id(&mut self, room_id: i64)
        ensures
            final(self)@ == old(self)@.delete_users_of_room(room_id),
    {
        proof {
            use_type_invariant(&*self);
        }
        let ghost before = self@;
        let ghost all = self@.users;
        let mut kept: Vec<User> = Vec::new();
        let ghost mut source: Seq<int> = Seq::empty();
        let mut i: usize = 0;
        while i < self.users.len()
            invariant
                i <= self.users.len(),
                before == self@,
                before.wf(),
                all == user_views(self.users@),
                user_views(kept@) == all.take(i as int).filter(
                    user_outside_room(room_id),
                ),
                source.len() == kept.len(),
                forall|a: int|
                    0 <= a < source.len() ==> 0 <= #[trigger] source[a] < i && kept@[a]@
                        == all[source[a]],
                forall|a: int, b: int|
                    0 <= a < b < source.len() ==> #[trigger] source[a] < #[trigger] source[b],
            decreases self.users.len() - i,
        {
            proof {
                all.lemma_take_succ_push(i as int);
                all.take(i as int).lemma_filter_push(all[i as int], user_outside_room(room_id));
            }
            if self.users[i].room_id != room_id {
                let ghost views = user_views(kept@);
                let user = self.users[i].clone();
                kept.push(user);
                proof {
                    source = source.push(i as int);
                    assert(user_views(kept@) =~= views.push(all[i as int]));
                }
            }
            i += 1;
        }
        proof {
            all.lemma_take_len();
            let views = user_views(kept@);
            assert forall|a: int, b: int|
                0 <= a < views.len() && 0 <= b < views.len() && a != b implies views[a].id
                != views[b].id && !(views[a].username == views[b].username && views[a].room_id
                == views[b].room_id) by {
                assert(views[a] == all[source[a]]);
                assert(views[b] == all[source[b]]);
                assert(source[a] != source[b]) by {
                    if a < b {
                        assert(source[a] < source[b]);
                    } else {
                        assert(source[b] < source[a]);
                    }
                }
            }
            assert((DatabaseView { users: views, ..before }).wf());
        }
        self.users = kept;
    }

    // Messages

    fn message_position(&self, id: i64) -> (result: Option<usize>)
        ensures
            match result {
                Some(i) => self@.message_at(i as int, id),
                None => !self@.has_message(id),
            },
    {
        let mut i: usize = 0;
        while i < self.messages.len()
            invariant
                i <= self.messages.len(),
                forall|j: int| 0 <= j < i ==> self.messages@[j].id != id,
            decreases self.messages.len() - i,
        {
            if self.messages[i].id == id {
                return Some(i);
            }
            i += 1;
        }
        None
    }

    /// Stores a message, unless its id is taken.
    pub fn insert_message(&mut self, message: Message) -> (result: Result<(), StoreError>)
        ensures
            match result {
                Ok(()) => old(self)@.insert_message(message@) == Ok::<DatabaseView, StoreError>(
                    final(self)@,
                ),
                Err(e) => old(self)@.insert_message(message@) == Err::<DatabaseView, StoreError>(e)
                    && final(self)@ == old(self)@,
            },
    {
        proof {
            use_type_invariant(&*self);
        }
        if self.message_position(message.id).is_some() {
            return Err(StoreError::DuplicateKey);
        }
        let ghost before = self@;
        let ghost view = message@;
        let mut messages = Vec::new();
        std::mem::swap(&mut messages, &mut self.messages);
        messages.push(message);
        proof {
            assert(message_views(messages@) =~= before.messages.push(view));
            assert forall|i: int| 0 <= i < before.messages.len() implies before.messages[i].id
                != view.id by {
                assert(!before.message_at(i, view.id));
            }
        }
        self.messages = messages;
        Ok(())
    }

    /// The messages of a room, in the order in which they were posted.
    pub fn find_messages_by_room_id(&self, room_id: i64) -> (result: Vec<Message>)
        ensures
            message_views(result@) == self@.messages_of_room(room_id),
    {
        let ghost all = self@.messages;
        let mut result: Vec<Message> = Vec::new();
        let mut i: usize = 0;
        while i < self.messages.len()
            invariant
                i <= self.messages.len(),
                all == message_views(self.messages@),
                message_views(result@) == all.take(i as int).filter(
                    message_in_room(room_id),
                ),
            decreases self.messages.len() - i,
        {
            proof {
                all.lemma_take_succ_push(i as int);
                all.take(i as int).lemma_filter_push(all[i as int], message_in_room(room_id));
            }
            if self.messages[i].room_id == room_id {
                let ghost before = message_views(result@);
                let message = self.messages[i].clone();
                result.push(message);
                assert(message_views(result@) =~= before.push(all[i as int]));
            }
            i += 1;
        }
        proof {
            all.lemma_take_len();
        }
        result
    }
}

} // verus!
