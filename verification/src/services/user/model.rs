//! Users: a name inside one room, owned by one session, with the control
//! connections through which the user is currently joined.

use snowflake::SnowflakeIdGenerator;
use vstd::prelude::*;
use vstd::string::*;

use crate::constants::{USER_USERNAME_MAX_LENGTH, USER_USERNAME_MIN_LENGTH};
use crate::database::{remove_connection, user_views, without_connection, Database, DatabaseView};
use crate::error::{AppError, AppErrorTemplate, AppErrorView};
use crate::utils::decimal::{decimal, decimal_string};
use crate::utils::snowflake_generator;
use crate::web_rtc::message::UserUpdateMessage;

verus! {

#[derive(Debug)]
pub struct User {
    pub id: i64,
    pub username: String,
    pub room_id: i64,
    pub session_id: i64,
    pub active_connection_ids: Vec<i64>,
}

/// The mathematical value of a [`User`].
pub ghost struct UserView {
    pub id: i64,
    pub username: Seq<char>,
    pub room_id: i64,
    pub session_id: i64,
    pub active_connection_ids: Seq<i64>,
}

impl View for User {
    type V = UserView;

    open spec fn view(&self) -> UserView {
        UserView {
            id: self.id,
            username: self.username@,
            room_id: self.room_id,
            session_id: self.session_id,
            active_connection_ids: self.active_connection_ids@,
        }
    }
}

impl Clone for User {
    fn clone(&self) -> (result: Self)
        ensures
            result@ == self@,
    {
        User {
            id: self.id,
            username: self.username.clone(),
            room_id: self.room_id,
            session_id: self.session_id,
            active_connection_ids: self.active_connection_ids.clone(),
        }
    }
}

/// Whether a user is reachable.
#[derive(Clone, Copy, Debug, PartialEq, Eq, Structural)]
pub enum UserStatus {
    Offline,
    Online,
}

impl Default for UserStatus {
    fn default() -> (result: Self)
        ensures
            result == UserStatus::Offline,
    {
        UserStatus::Offline
    }
}

impl UserStatus {
    /// The number that stands for the status on the wire.
    pub open spec fn spec_code(self) -> u8 {
        match self {
            UserStatus::Offline => 0,
            UserStatus::Online => 1,
        }
    }

    /// The number that stands for the status on the wire.
    #[verifier::when_used_as_spec(spec_code)]
    pub fn code(self) -> (result: u8)
        ensures
            result == self.spec_code(),
    {
        match self {
            UserStatus::Offline => 0,
            UserStatus::Online => 1,
        }
    }

    /// The status a wire number stands for, if any.
    pub fn from_code(code: u8) -> (result: Option<UserStatus>)
        ensures
            match result {
                Some(status) => status.spec_code() == code,
                None => code > 1,
            },
    {
        if code == 0 {
            Some(UserStatus::Offline)
        } else if code == 1 {
            Some(UserStatus::Online)
        } else {
            None
        }
    }
}

/// What other clients see of a user.
#[derive(Debug)]
pub struct UserPublic {
    pub id: String,
    pub username: String,
    pub status: UserStatus,
}

/// The mathematical value of a [`UserPublic`].
pub ghost struct UserPublicView {
    pub id: Seq<char>,
    pub username: Seq<char>,
    pub status: UserStatus,
}

impl View for UserPublic {
    type V = UserPublicView;

    open spec fn view(&self) -> UserPublicView {
        UserPublicView { id: self.id@, username: self.username@, status: self.status }
    }
}

impl Clone for UserPublic {
    fn clone(&self) -> (result: Self)
        ensures
            result@ == self@,
    {
        UserPublic { id: self.id.clone(), username: self.username.clone(), status: self.status }
    }
}

impl UserView {
    /// The presence of the user: online exactly when a connection is
    /// registered to it.
    pub open spec fn status(self) -> UserStatus {
        if self.active_connection_ids.len() == 0 {
            UserStatus::Offline
        } else {
            UserStatus::Online
        }
    }

    /// What other clients see of the user: the id as decimal text, the name
    /// and the presence.
    pub open spec fn public(self) -> UserPublicView {
        UserPublicView {
            id: decimal(self.id as int),
            username: self.username,
            status: self.status(),
        }
    }
}

impl UserPublic {
    /// What other clients see of `user`.
    pub fn from(user: User) -> (result: UserPublic)
        ensures
            result@ == user@.public(),
            result.status == UserStatus::Online <==> user.active_connection_ids@.len() > 0,
    {
        let status = if user.active_connection_ids.len() == 0 {
            UserStatus::Offline
        } else {
            UserStatus::Online
        };
        UserPublic { id: decimal_string(user.id), username: user.username, status }
    }
}

impl User {
    /// What storing a new user gives: the store with a user without
    /// connections added, or `Conflict` where the name is taken in the room
    /// or the id is taken.
    pub open spec fn spec_create(
        before: DatabaseView,
        id: i64,
        username: Seq<char>,
        room_id: i64,
        session_id: i64,
    ) -> Result<(DatabaseView, UserView), AppErrorView> {
        let user = UserView {
            id,
            username,
            room_id,
            session_id,
            active_connection_ids: Seq::empty(),
        };
        if before.has_user_named(username, room_id) {
            Err(AppErrorTemplate::Conflict(None).spec_error())
        } else {
            match before.insert_user(user) {
                Ok(after) => Ok((after, user)),
                Err(e) => Err(AppError::spec_from_store_error(e)),
            }
        }
    }

    /// What registering a connection to a user gives: the store with the
    /// connection appended to the user's connections, and the user as it
    /// then stands; `NotFound` where no user has that id.
    pub open spec fn spec_register_connection(before: DatabaseView, id: i64, user_id: i64) -> Result<
        (DatabaseView, UserView),
        AppErrorView,
    > {
        if before.has_user(user_id) {
            let user = UserView {
                active_connection_ids: before.user(user_id).active_connection_ids.push(id),
                ..before.user(user_id)
            };
            Ok(
                (
                    DatabaseView {
                        users: before.users.update(before.user_index(user_id), user),
                        ..before
                    },
                    user,
                ),
            )
        } else {
            Err(AppErrorTemplate::NotFound(None).spec_error())
        }
    }

    /// What unregistering a connection from a user gives: the store with
    /// the connection taken out of the user's connections, and the user as
    /// it then stands; `NotFound` where no user has that id.
    pub open spec fn spec_unregister_connection(before: DatabaseView, id: i64, user_id: i64) -> Result<
        (DatabaseView, UserView),
        AppErrorView,
    > {
        if before.has_user(user_id) {
            let user = UserView {
                active_connection_ids: without_connection(
                    before.user(user_id).active_connection_ids,
                    id,
                ),
                ..before.user(user_id)
            };
            Ok(
                (
                    DatabaseView {
                        users: before.users.update(before.user_index(user_id), user),
                        ..before
                    },
                    user,
                ),
            )
        } else {
            Err(AppErrorTemplate::NotFound(None).spec_error())
        }
    }

    /// What the length check of a user name gives.
    pub open spec fn spec_check_username_length(username: Seq<char>) -> Result<(), AppErrorView> {
        if username.len() < USER_USERNAME_MIN_LENGTH {
            Err(AppErrorTemplate::UsernameTooShort(None).spec_error())
        } else if username.len() > USER_USERNAME_MAX_LENGTH {
            Err(AppErrorTemplate::UsernameTooLong(None).spec_error())
        } else {
            Ok(())
        }
    }

    /// Stores a new user with the given id.
    pub fn create_with_id(
        store: &mut Database,
        id: i64,
        username: String,
        room_id: i64,
        session_id: i64,
    ) -> (result: Result<User, AppError>)
        ensures
            match result {
                Ok(user) => User::spec_create(old(store)@, id, username@, room_id, session_id)
                    == Ok::<(DatabaseView, UserView), AppErrorView>((final(store)@, user@)),
                Err(e) => User::spec_create(old(store)@, id, username@, room_id, session_id)
                    == Err::<(DatabaseView, UserView), AppErrorView>(e@) && final(store)@ == old(
                    store,
                )@,
            },
    {
        if store.find_user_by_username_and_room_id(username.as_str(), room_id).is_some() {
            return Err(AppError::from_template(AppErrorTemplate::Conflict(None)));
        }
        let user = User { id, username, room_id, session_id, active_connection_ids: Vec::new() };
        let stored = user.clone();
        match store.insert_user(stored) {
            Ok(()) => Ok(user),
            Err(e) => Err(AppError::from_store_error(e)),
        }
    }

    /// Stores a new user under a new id. The id comes from the clock: the
    /// outcome is that of [`User::create_with_id`] for some id.
    pub fn create(
        store: &mut Database,
        generator: &mut SnowflakeIdGenerator,
        username: String,
        room_id: i64,
        session_id: i64,
    ) -> (result: Result<User, AppError>)
        ensures
            exists|id: i64|
                match result {
                    Ok(user) => #[trigger] User::spec_create(
                        old(store)@,
                        id,
                        username@,
                        room_id,
                        session_id,
                    ) == Ok::<(DatabaseView, UserView), AppErrorView>((final(store)@, user@)),
                    Err(e) => User::spec_create(old(store)@, id, username@, room_id, session_id)
                        == Err::<(DatabaseView, UserView), AppErrorView>(e@) && final(store)@
                        == old(store)@,
                },
    {
        let id = snowflake_generator::generate(generator);
        User::create_with_id(store, id, username, room_id, session_id)
    }

    /// The users of the room `id`, in the order in which they were stored.
    pub fn find_all_by_room_id(store: &Database, id: &i64) -> (result: Result<Vec<User>, AppError>)
        ensures
            result is Ok,
            user_views(result->Ok_0@) == store@.users_of_room(*id),
    {
        Ok(store.find_users_by_room_id(*id))
    }

    /// Deletes every user of the room `id`.
    pub fn delete_by_room_id(store: &mut Database, id: &i64) -> (result: Result<(), AppError>)
        ensures
            result is Ok,
            final(store)@ == old(store)@.delete_users_of_room(*id),
    {
        store.delete_users_by_room_id(*id);
        Ok(())
    }

    /// The user with this name in this room; `NotFound` where none is
    /// stored.
    pub fn find_by_username_and_room_id(store: &Database, username: &str, room_id: &i64) -> (result:
        Result<User, AppError>)
        ensures
            match result {
                Ok(user) => store@.has_user_named(username@, *room_id) && user@
                    == store@.user_named(username@, *room_id),
                Err(e) => !store@.has_user_named(username@, *room_id) && e@
                    == AppErrorTemplate::NotFound(None).spec_error(),
            },
    {
        match store.find_user_by_username_and_room_id(username, *room_id) {
            Some(user) => Ok(user),
            None => Err(AppError::from_template(AppErrorTemplate::NotFound(None))),
        }
    }

    /// Adds the connection `id` to the connections of the user `user_id`.
    /// Where it is then the user's only connection, the presence update to
    /// broadcast to the user's room comes back.
    pub fn register_connection(store: &mut Database, id: i64, user_id: &i64) -> (result: Result<
        Option<UserUpdateMessage>,
        AppError,
    >)
        ensures
            match result {
                Ok(update) => {
                    &&& User::spec_register_connection(old(store)@, id, *user_id) is Ok
                    &&& User::spec_register_connection(old(store)@, id, *user_id)->Ok_0.0
                        == final(store)@
                    &&& update is Some <==> old(store)@.user(*user_id).active_connection_ids.len()
                        == 0
                    &&& update matches Some(message) ==> message.user@
                        == User::spec_register_connection(old(store)@, id, *user_id)->Ok_0.1
                        && message.room_id == message.user.room_id
                },
                Err(e) => User::spec_register_connection(old(store)@, id, *user_id) == Err::<
                    (DatabaseView, UserView),
                    AppErrorView,
                >(e@) && final(store)@ == old(store)@,
            },
    {
        let Some(user) = store.find_user_by_id(*user_id) else {
            return Err(AppError::from_template(AppErrorTemplate::NotFound(None)));
        };
        let mut user = user;
        let room_id = user.room_id;
        user.active_connection_ids.push(id);
        match store.set_user_connections(*user_id, user.active_connection_ids.clone()) {
            Ok(()) => {
                if user.active_connection_ids.len() == 1 {
                    Ok(Some(UserUpdateMessage { user, room_id }))
                } else {
                    Ok(None)
                }
            },
            Err(e) => Err(AppError::from_store_error(e)),
        }
    }

    /// Takes the connection `id` out of the connections of the user
    /// `user_id`. Where that takes the user's last connection, so that the
    /// user goes from connected to not connected, the presence update to
    /// broadcast to the user's room comes back. A user that had no
    /// connection stays as it was, and no update comes back.
    pub fn unregister_connection(store: &mut Database, id: &i64, user_id: &i64) -> (result: Result<
        Option<UserUpdateMessage>,
        AppError,
    >)
        ensures
            match result {
                Ok(update) => {
                    &&& User::spec_unregister_connection(old(store)@, *id, *user_id) is Ok
                    &&& User::spec_unregister_connection(old(store)@, *id, *user_id)->Ok_0.0
                        == final(store)@
                    &&& update is Some <==> old(store)@.user(*user_id).active_connection_ids.len()
                        > 0 && without_connection(
                        old(store)@.user(*user_id).active_connection_ids,
                        *id,
                    ).len() == 0
                    &&& update matches Some(message) ==> message.user@
                        == User::spec_unregister_connection(old(store)@, *id, *user_id)->Ok_0.1
                        && message.room_id == message.user.room_id
                },
                Err(e) => User::spec_unregister_connection(old(store)@, *id, *user_id) == Err::<
                    (DatabaseView, UserView),
                    AppErrorView,
                >(e@) && final(store)@ == old(store)@,
            },
    {
        let Some(user) = store.find_user_by_id(*user_id) else {
            return Err(AppError::from_template(AppErrorTemplate::NotFound(None)));
        };
        let mut user = user;
        let room_id = user.room_id;
        let was_connected = user.active_connection_ids.len() > 0;
        user.active_connection_ids = remove_connection(&user.active_connection_ids, *id);
        match store.set_user_connections(*user_id, user.active_connection_ids.clone()) {
            Ok(()) => {
                if was_connected && user.active_connection_ids.len() == 0 {
                    Ok(Some(UserUpdateMessage { user, room_id }))
                } else {
                    Ok(None)
                }
            },
            Err(e) => Err(AppError::from_store_error(e)),
        }
    }

    /// Accepts a name of 3 to 32 characters; a shorter one is
    /// `UsernameTooShort`, a longer one `UsernameTooLong`.
    pub fn check_username_length(username: &str) -> (result: Result<(), AppError>)
        ensures
            match result {
                Ok(()) => User::spec_check_username_length(username@) == Ok::<(), AppErrorView>(
                    (),
                ),
                Err(e) => User::spec_check_username_length(username@) == Err::<(), AppErrorView>(
                    e@,
                ),
            },
    {
        let length = username.unicode_len();
        if length < USER_USERNAME_MIN_LENGTH {
            Err(AppError::from_template(AppErrorTemplate::UsernameTooShort(None)))
        } else if length > USER_USERNAME_MAX_LENGTH {
            Err(AppError::from_template(AppErrorTemplate::UsernameTooLong(None)))
        } else {
            Ok(())
        }
    }
}

/// The presence of a user, as other clients see it, is `Online` exactly
/// when a connection is registered to the user.
pub proof fn lemma_online_iff_connected(user: UserView)
    ensures
        user.public().status == UserStatus::Online <==> user.active_connection_ids.len() > 0,
        user.public().status == UserStatus::Offline <==> user.active_connection_ids.len() == 0,
{
}

/// Presence after a connection is registered: the user is online, and the
/// other users are as they were.
pub proof fn lemma_register_makes_online(before: DatabaseView, id: i64, user_id: i64)
    requires
        before.wf(),
        before.has_user(user_id),
    ensures
        User::spec_register_connection(before, id, user_id) is Ok,
        ({
            let after = User::spec_register_connection(before, id, user_id)->Ok_0.0;
            &&& after.has_user(user_id)
            &&& after.user(user_id).public().status == UserStatus::Online
            &&& after.users.len() == before.users.len()
            &&& forall|i: int|
                0 <= i < before.users.len() && before.users[i].id != user_id
                    ==> #[trigger] after.users[i] == before.users[i]
        }),
{
    let after = User::spec_register_connection(before, id, user_id)->Ok_0.0;
    let index = before.user_index(user_id);
    assert(before.user_at(index, user_id));
    assert(after.user_at(index, user_id));
    let found = after.user_index(user_id);
    assert(after.users[found].id == after.users[index].id);
    assert(before.users[found].id == before.users[index].id);
}

/// Presence after a connection is unregistered: the user is online
/// exactly when another connection stays registered to it, and the other
/// users are as they were.
pub proof fn lemma_unregister_presence(before: DatabaseView, id: i64, user_id: i64)
    requires
        before.wf(),
        before.has_user(user_id),
    ensures
        User::spec_unregister_connection(before, id, user_id) is Ok,
        ({
            let after = User::spec_unregister_connection(before, id, user_id)->Ok_0.0;
            &&& after.has_user(user_id)
            &&& after.user(user_id).public().status == UserStatus::Online <==> exists|k: int|
                0 <= k < before.user(user_id).active_connection_ids.len() && before.user(
                    user_id,
                ).active_connection_ids[k] != id
            &&& after.users.len() == before.users.len()
            &&& forall|i: int|
                0 <= i < before.users.len() && before.users[i].id != user_id
                    ==> #[trigger] after.users[i] == before.users[i]
        }),
{
    let after = User::spec_unregister_connection(before, id, user_id)->Ok_0.0;
    let index = before.user_index(user_id);
    assert(before.user_at(index, user_id));
    assert(after.user_at(index, user_id));
    let found = after.user_index(user_id);
    assert(after.users[found].id == after.users[index].id);
    assert(before.users[found].id == before.users[index].id);
    let ids = before.user(user_id).active_connection_ids;
    let kept = without_connection(ids, id);
    assert(after.user(user_id).active_connection_ids == kept);
    if kept.len() > 0 {
        ids.lemma_filter_pred(crate::database::other_connection(id), 0);
        assert(kept.contains(kept[0]));
        ids.lemma_filter_contains_rev(crate::database::other_connection(id), kept[0]);
        let k = choose|k: int| 0 <= k < ids.len() && ids[k] == kept[0];
        assert(ids[k] != id);
    }
    if exists|k: int| 0 <= k < ids.len() && ids[k] != id {
        let k = choose|k: int| 0 <= k < ids.len() && ids[k] != id;
        ids.lemma_filter_contains(crate::database::other_connection(id), k);
        assert(kept.contains(ids[k]));
    }
}

/// One step in the life of the connections of a user.
pub ghost enum ConnectionStep {
    /// A connection is registered to the user.
    Register(i64),
    /// A connection is unregistered from the user.
    Unregister(i64),
}

/// The connections of a user that had the connections `initial`, after the
/// steps in their order: a registered connection is appended, an
/// unregistered one is taken out wherever it stands.
pub open spec fn connections_after(initial: Seq<i64>, steps: Seq<ConnectionStep>) -> Seq<i64>
    decreases steps.len(),
{
    if steps.len() == 0 {
        initial
    } else {
        let before = connections_after(initial, steps.drop_last());
        match steps.last() {
            ConnectionStep::Register(id) => before.push(id),
            ConnectionStep::Unregister(id) => without_connection(before, id),
        }
    }
}

/// Whether the connection `id` was registered in the steps and not
/// unregistered since.
pub open spec fn registered_after(steps: Seq<ConnectionStep>, id: i64) -> bool
    decreases steps.len(),
{
    if steps.len() == 0 {
        false
    } else {
        match steps.last() {
            ConnectionStep::Register(other) => other == id || registered_after(
                steps.drop_last(),
                id,
            ),
            ConnectionStep::Unregister(other) => other != id && registered_after(
                steps.drop_last(),
                id,
            ),
        }
    }
}

/// Whether no step registers a connection that is registered at that time.
pub open spec fn orderly(steps: Seq<ConnectionStep>) -> bool
    decreases steps.len(),
{
    if steps.len() == 0 {
        true
    } else {
        orderly(steps.drop_last()) && match steps.last() {
            ConnectionStep::Register(id) => !registered_after(steps.drop_last(), id),
            ConnectionStep::Unregister(_) => true,
        }
    }
}

/// How often `id` stands in `ids`.
pub open spec fn count_of(ids: Seq<i64>, id: i64) -> nat
    decreases ids.len(),
{
    if ids.len() == 0 {
        0
    } else if ids.last() == id {
        1 + count_of(ids.drop_last(), id)
    } else {
        count_of(ids.drop_last(), id)
    }
}

/// The store after the steps were made, one call each, on the user
/// `user_id`.
pub open spec fn store_after(before: DatabaseView, user_id: i64, steps: Seq<ConnectionStep>) -> DatabaseView
    decreases steps.len(),
{
    if steps.len() == 0 {
        before
    } else {
        let store = store_after(before, user_id, steps.drop_last());
        match steps.last() {
            ConnectionStep::Register(id) => match User::spec_register_connection(
                store,
                id,
                user_id,
            ) {
                Ok((after, _)) => after,
                Err(_) => store,
            },
            ConnectionStep::Unregister(id) => match User::spec_unregister_connection(
                store,
                id,
                user_id,
            ) {
                Ok((after, _)) => after,
                Err(_) => store,
            },
        }
    }
}

proof fn lemma_count_push(ids: Seq<i64>, added: i64, id: i64)
    ensures
        count_of(ids.push(added), id) == count_of(ids, id) + if added == id {
            1nat
        } else {
            0nat
        },
{
    assert(ids.push(added).drop_last() =~= ids);
}

proof fn lemma_count_without(ids: Seq<i64>, removed: i64, id: i64)
    ensures
        count_of(without_connection(ids, removed), id) == if id == removed {
            0nat
        } else {
            count_of(ids, id)
        },
    decreases ids.len(),
{
    let other = crate::database::other_connection(removed);
    if ids.len() == 0 {
        assert(ids.filter(other) =~= Seq::empty()) by {
            ids.lemma_filter_len(other);
        }
    } else {
        lemma_count_without(ids.drop_last(), removed, id);
        assert(ids.drop_last().push(ids.last()) =~= ids);
        ids.drop_last().lemma_filter_push(ids.last(), other);
        if ids.last() != removed {
            lemma_count_push(ids.drop_last().filter(other), ids.last(), id);
        }
    }
}

/// Over any sequence of registrations and unregistrations, made on a user
/// that started without connections and none of which registers a
/// connection that is registered at that time, the connections of the user
/// are the connections that were registered and not unregistered since,
/// each once.
pub proof fn lemma_connections_after(steps: Seq<ConnectionStep>, id: i64)
    requires
        orderly(steps),
    ensures
        count_of(connections_after(Seq::empty(), steps), id) == if registered_after(steps, id) {
            1nat
        } else {
            0nat
        },
    decreases steps.len(),
{
    if steps.len() > 0 {
        lemma_connections_after(steps.drop_last(), id);
        let before = connections_after(Seq::empty(), steps.drop_last());
        match steps.last() {
            ConnectionStep::Register(added) => {
                lemma_count_push(before, added, id);
            },
            ConnectionStep::Unregister(removed) => {
                lemma_count_without(before, removed, id);
            },
        }
    }
}

/// Over any such sequence, the user is online, as other clients see it,
/// exactly when a connection was registered and not unregistered since.
pub proof fn lemma_presence_after(user: UserView, steps: Seq<ConnectionStep>)
    requires
        orderly(steps),
        user.active_connection_ids == connections_after(Seq::empty(), steps),
    ensures
        user.public().status == UserStatus::Online <==> exists|id: i64|
            registered_after(steps, id),
{
    let ids = user.active_connection_ids;
    if ids.len() > 0 {
        lemma_connections_after(steps, ids.last());
        assert(registered_after(steps, ids.last()));
    }
    if exists|id: i64| registered_after(steps, id) {
        let id = choose|id: i64| registered_after(steps, id);
        lemma_connections_after(steps, id);
    }
}

/// The calls follow the steps: after the steps were made on a stored user,
/// one call each, the user is stored as it was but for its connections,
/// which are those after the steps.
pub proof fn lemma_store_after(before: DatabaseView, user_id: i64, steps: Seq<ConnectionStep>)
    requires
        before.wf(),
        before.has_user(user_id),
    ensures
        store_after(before, user_id, steps).wf(),
        store_after(before, user_id, steps).has_user(user_id),
        store_after(before, user_id, steps).user(user_id) == (UserView {
            active_connection_ids: connections_after(
                before.user(user_id).active_connection_ids,
                steps,
            ),
            ..before.user(user_id)
        }),
    decreases steps.len(),
{
    if steps.len() > 0 {
        lemma_store_after(before, user_id, steps.drop_last());
        let store = store_after(before, user_id, steps.drop_last());
        let i = store.user_index(user_id);
        assert(store.user_at(i, user_id));
        let ids = match steps.last() {
            ConnectionStep::Register(id) => store.user(user_id).active_connection_ids.push(id),
            ConnectionStep::Unregister(id) => without_connection(
                store.user(user_id).active_connection_ids,
                id,
            ),
        };
        store.lemma_set_user_connections_wf(user_id, ids);
        let after = store_after(before, user_id, steps);
        assert(after == store.set_user_connections(user_id, ids)->Ok_0);
        after.lemma_user_at(i);
    }
}

} // verus!
