//! Sessions: an id and the bearer token that names it.

use snowflake::SnowflakeIdGenerator;
use vstd::prelude::*;
use vstd::string::*;

use crate::database::{Database, DatabaseView};
use crate::error::{AppError, AppErrorTemplate, AppErrorView};
use crate::utils::decimal::{decimal, decimal_string};
use crate::utils::snowflake_generator;

verus! {

/// Number of random characters a token starts with.
pub const TOKEN_RANDOM_LENGTH: usize = 45;

#[derive(Debug)]
pub struct Session {
    pub id: i64,
    pub token: String,
}

/// The mathematical value of a [`Session`].
pub ghost struct SessionView {
    pub id: i64,
    pub token: Seq<char>,
}

impl View for Session {
    type V = SessionView;

    open spec fn view(&self) -> SessionView {
        SessionView { id: self.id, token: self.token@ }
    }
}

impl Clone for Session {
    fn clone(&self) -> (result: Self)
        ensures
            result@ == self@,
    {
        Session { id: self.id, token: self.token.clone() }
    }
}

/// Whether `c` belongs to the URL-safe alphabet: `_`, `-`, a digit or an
/// ASCII letter.
pub open spec fn is_url_safe(c: char) -> bool {
    c == '_' || c == '-' || ('0' <= c && c <= '9') || ('a' <= c && c <= 'z') || ('A' <= c && c
        <= 'Z')
}

/// `nanoid::format` with the default random source and the URL-safe
/// alphabet. The text is random; it has `size` characters, each of the
/// alphabet. The bound keeps the size inside what a string can hold. The
/// call stops the process when the system has no randomness to give.
#[verifier::external_body]
fn random_text(size: usize) -> (text: String)
    requires
        size <= 65535,
    ensures
        text@.len() == size,
        forall|i: int| 0 <= i < text@.len() ==> is_url_safe(#[trigger] text@[i]),
{
    nanoid::format(nanoid::rngs::default, &nanoid::alphabet::SAFE, size)
}

impl Session {
    /// What storing a session with this id and token gives: the store with
    /// the session added, or `Conflict` where the id or the token is taken.
    pub open spec fn spec_create(before: DatabaseView, id: i64, token: Seq<char>) -> Result<
        (DatabaseView, SessionView),
        AppErrorView,
    > {
        let session = SessionView { id, token };
        match before.insert_session(session) {
            Ok(after) => Ok((after, session)),
            Err(e) => Err(AppError::spec_from_store_error(e)),
        }
    }

    /// Whether `token` may come out of [`Session::create`]: random URL-safe
    /// characters followed by the decimal text of an id.
    pub open spec fn is_fresh_token(token: Seq<char>) -> bool {
        exists|suffix: i64|
            {
                &&& token.len() == TOKEN_RANDOM_LENGTH + (#[trigger] decimal(suffix as int)).len()
                &&& token.skip(TOKEN_RANDOM_LENGTH as int) == decimal(suffix as int)
                &&& forall|i: int|
                    0 <= i < TOKEN_RANDOM_LENGTH ==> is_url_safe(#[trigger] token[i])
            }
    }

    /// Stores a session with the given id and token.
    pub fn create_with(store: &mut Database, id: i64, token: String) -> (result: Result<
        Session,
        AppError,
    >)
        ensures
            match result {
                Ok(session) => Session::spec_create(old(store)@, id, token@) == Ok::<
                    (DatabaseView, SessionView),
                    AppErrorView,
                >((final(store)@, session@)),
                Err(e) => Session::spec_create(old(store)@, id, token@) == Err::<
                    (DatabaseView, SessionView),
                    AppErrorView,
                >(e@) && final(store)@ == old(store)@,
            },
    {
        let session = Session { id, token };
        let stored = session.clone();
        match store.insert_session(stored) {
            Ok(()) => Ok(session),
            Err(e) => Err(AppError::from_store_error(e)),
        }
    }

    /// Creates a session with a new id and a fresh token, and stores it.
    /// The id and the token come from the clock and a random source: the
    /// outcome is that of [`Session::create_with`] for some id and some
    /// fresh token.
    pub fn create(store: &mut Database, generator: &mut SnowflakeIdGenerator) -> (result: Result<
        Session,
        AppError,
    >)
        ensures
            exists|id: i64, token: Seq<char>|
                Session::is_fresh_token(token) && match result {
                    Ok(session) => #[trigger] Session::spec_create(old(store)@, id, token) == Ok::<
                        (DatabaseView, SessionView),
                        AppErrorView,
                    >((final(store)@, session@)),
                    Err(e) => Session::spec_create(old(store)@, id, token) == Err::<
                        (DatabaseView, SessionView),
                        AppErrorView,
                    >(e@) && final(store)@ == old(store)@,
                },
    {
        let id = snowflake_generator::generate(generator);
        let token = Session::fresh_token(generator);
        Session::create_with(store, id, token)
    }

    /// A token for a new session: 45 random URL-safe characters, then the
    /// decimal text of a new id.
    pub fn fresh_token(generator: &mut SnowflakeIdGenerator) -> (token: String)
        ensures
            Session::is_fresh_token(token@),
    {
        let random = random_text(TOKEN_RANDOM_LENGTH);
        let suffix = snowflake_generator::generate(generator);
        let token = random.concat(decimal_string(suffix).as_str());
        proof {
            assert(token@.skip(TOKEN_RANDOM_LENGTH as int) =~= decimal(suffix as int));
        }
        token
    }

    /// The session with this token; `NotFound` where none is stored.
    pub fn find_by_token(store: &Database, token: &str) -> (result: Result<Session, AppError>)
        ensures
            match result {
                Ok(session) => store@.has_session_token(token@) && session@
                    == store@.session_with_token(token@),
                Err(e) => !store@.has_session_token(token@) && e@ == AppErrorTemplate::NotFound(
                    None,
                ).spec_error(),
            },
    {
        match store.find_session_by_token(token) {
            Some(session) => Ok(session),
            None => Err(AppError::from_template(AppErrorTemplate::NotFound(None))),
        }
    }
}

} // verus!
