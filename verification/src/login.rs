//! Logging in and out. Logging in looks up the e-mail address, then its
//! user, then checks the password, then opens the session; each step's
//! outcome comes back as an event and the next step is decided here.
use vstd::prelude::*;
use crate::errors::PhotoError;
use crate::text::{int_text, push_str};

verus! {

/// The log-in mutation.
pub struct Login;

/// The log-out mutation.
pub struct Logout;

/// How far a log-in has come.
#[derive(Debug, Clone, Copy, PartialEq, Eq, Structural)]
pub enum LoginStage {
    Start,
    FindingEmail,
    FindingUser,
    CheckingPassword(i32),
    StoringSession(i32),
    Done,
}

/// The outcome of the last step of a log-in.
#[derive(Debug, Clone, Copy, PartialEq, Eq, Structural)]
pub enum LoginEvent {
    /// The request arrived.
    Begin,
    /// The id of the e-mail address given, if it is registered.
    EmailLookedUp(Option<i32>),
    /// The id of the user with that address, if any.
    UserLookedUp(Option<i32>),
    /// Whether the password matches the user's stored hash.
    PasswordChecked(bool),
    /// The user's id was written to the session.
    SessionStored,
    /// The request came without a session: there is nothing to write.
    NoSession,
    /// The store or the session failed.
    StoreFailed,
}

/// The answer to a log-in request.
#[derive(Debug, Clone, Copy, PartialEq, Eq, Structural)]
pub enum LoginReply {
    LoggedIn(i32),
    Failed(PhotoError),
    StoreFailed,
}

/// What to do next.
#[derive(Debug, Clone, Copy, PartialEq, Eq, Structural)]
pub enum LoginAction {
    /// Look up the id of the given e-mail address.
    FindEmailId,
    /// Look up the user registered with this e-mail address id.
    FindUserByEmail(i32),
    /// Check the given password against the found user's hash.
    CheckPassword,
    /// Write this user id to the session.
    StoreSession(i32),
    /// Answer the request.
    Reply(LoginReply),
    /// The event does not belong to this stage: nothing to do.
    Wait,
}

/// The log-in decisions.
pub open spec fn login_next(stage: LoginStage, event: LoginEvent) -> (LoginStage, LoginAction) {
    match (stage, event) {
        (LoginStage::Done, _) => (LoginStage::Done, LoginAction::Wait),
        (_, LoginEvent::StoreFailed) => (
            LoginStage::Done,
            LoginAction::Reply(LoginReply::StoreFailed),
        ),
        (LoginStage::Start, LoginEvent::Begin) => (LoginStage::FindingEmail, LoginAction::FindEmailId),
        (LoginStage::FindingEmail, LoginEvent::EmailLookedUp(found)) => match found {
            Some(email_id) => (LoginStage::FindingUser, LoginAction::FindUserByEmail(email_id)),
            None => (
                LoginStage::Done,
                LoginAction::Reply(LoginReply::Failed(PhotoError::UserNotFound)),
            ),
        },
        (LoginStage::FindingUser, LoginEvent::UserLookedUp(found)) => match found {
            Some(user_id) => (LoginStage::CheckingPassword(user_id), LoginAction::CheckPassword),
            None => (
                LoginStage::Done,
                LoginAction::Reply(LoginReply::Failed(PhotoError::UserNotFound)),
            ),
        },
        (LoginStage::CheckingPassword(user_id), LoginEvent::PasswordChecked(ok)) => if ok {
            (LoginStage::StoringSession(user_id), LoginAction::StoreSession(user_id))
        } else {
            (
                LoginStage::Done,
                LoginAction::Reply(LoginReply::Failed(PhotoError::InvalidCredentials)),
            )
        },
        (LoginStage::StoringSession(user_id), LoginEvent::SessionStored) => (
            LoginStage::Done,
            LoginAction::Reply(LoginReply::LoggedIn(user_id)),
        ),
        (LoginStage::StoringSession(user_id), LoginEvent::NoSession) => (
            LoginStage::Done,
            LoginAction::Reply(LoginReply::LoggedIn(user_id)),
        ),
        _ => (stage, LoginAction::Wait),
    }
}

/// The stage reached and the actions taken for a run of events, from the start.
pub open spec fn login_run(events: Seq<LoginEvent>) -> (LoginStage, Seq<LoginAction>)
    decreases events.len(),
{
    if events.len() == 0 {
        (LoginStage::Start, Seq::empty())
    } else {
        let (stage, actions) = login_run(events.drop_last());
        let (next, action) = login_next(stage, events.last());
        (next, actions.push(action))
    }
}

/// Among the first `upto` events, user `user_id` was found.
pub open spec fn user_found_before(events: Seq<LoginEvent>, user_id: i32, upto: int) -> bool {
    exists|i: int| 0 <= i < upto && events[i] == LoginEvent::UserLookedUp(Some(user_id))
}

/// Among the first `upto` events, user `user_id` was found and then a
/// password check succeeded.
pub open spec fn password_checked_before(events: Seq<LoginEvent>, user_id: i32, upto: int) -> bool {
    exists|i: int, j: int|
        0 <= i < j < upto && events[i] == LoginEvent::UserLookedUp(Some(user_id)) && events[j]
            == LoginEvent::PasswordChecked(true)
}

impl Login {
    /// The next stage and action of a log-in.
    pub fn next(stage: LoginStage, event: LoginEvent) -> (r: (LoginStage, LoginAction))
        ensures
            r == login_next(stage, event),
    {
        match (stage, event) {
            (LoginStage::Done, _) => (LoginStage::Done, LoginAction::Wait),
            (_, LoginEvent::StoreFailed) => (
                LoginStage::Done,
                LoginAction::Reply(LoginReply::StoreFailed),
            ),
            (LoginStage::Start, LoginEvent::Begin) => (
                LoginStage::FindingEmail,
                LoginAction::FindEmailId,
            ),
            (LoginStage::FindingEmail, LoginEvent::EmailLookedUp(found)) => match found {
                Some(email_id) => (LoginStage::FindingUser, LoginAction::FindUserByEmail(email_id)),
                None => (
                    LoginStage::Done,
                    LoginAction::Reply(LoginReply::Failed(PhotoError::UserNotFound)),
                ),
            },
            (LoginStage::FindingUser, LoginEvent::UserLookedUp(found)) => match found {
                Some(user_id) => (LoginStage::CheckingPassword(user_id), LoginAction::CheckPassword),
                None => (
                    LoginStage::Done,
                    LoginAction::Reply(LoginReply::Failed(PhotoError::UserNotFound)),
                ),
            },
            (LoginStage::CheckingPassword(user_id), LoginEvent::PasswordChecked(ok)) => if ok {
                (LoginStage::StoringSession(user_id), LoginAction::StoreSession(user_id))
            } else {
                (
                    LoginStage::Done,
                    LoginAction::Reply(LoginReply::Failed(PhotoError::InvalidCredentials)),
                )
            },
            (LoginStage::StoringSession(user_id), LoginEvent::SessionStored) => (
                LoginStage::Done,
                LoginAction::Reply(LoginReply::LoggedIn(user_id)),
            ),
            (LoginStage::StoringSession(user_id), LoginEvent::NoSession) => (
                LoginStage::Done,
                LoginAction::Reply(LoginReply::LoggedIn(user_id)),
            ),
            _ => (stage, LoginAction::Wait),
        }
    }
}

proof fn lemma_login_run(events: Seq<LoginEvent>)
    ensures
        login_run(events).1.len() == events.len(),
        forall|u: i32|
            login_run(events).0 == LoginStage::CheckingPassword(u) ==> user_found_before(
                events,
                u,
                events.len() as int,
            ),
        forall|u: i32|
            login_run(events).0 == LoginStage::StoringSession(u) ==> password_checked_before(
                events,
                u,
                events.len() as int,
            ),
        forall|k: int|
            0 <= k < events.len() ==> match #[trigger] login_run(events).1[k] {
                LoginAction::Reply(LoginReply::LoggedIn(u)) => password_checked_before(events, u, k),
                _ => true,
            },
    decreases events.len(),
{
    if events.len() > 0 {
        let prev = events.drop_last();
        let n = prev.len() as int;
        lemma_login_run(prev);
        let (stage, actions) = login_run(prev);
        let e = events.last();
        assert(forall|i: int| 0 <= i < n ==> events[i] == prev[i]);
        assert forall|u: i32|
            login_run(events).0 == LoginStage::CheckingPassword(u) implies user_found_before(
                events,
                u,
                events.len() as int,
            ) by {
            if stage == LoginStage::CheckingPassword(u) {
                assert(user_found_before(prev, u, n));
                let i = choose|i: int| 0 <= i < n && prev[i] == LoginEvent::UserLookedUp(Some(u));
                assert(events[i] == LoginEvent::UserLookedUp(Some(u)));
            } else {
                assert(events[n] == LoginEvent::UserLookedUp(Some(u)));
            }
        }
        assert forall|u: i32|
            login_run(events).0 == LoginStage::StoringSession(u) implies password_checked_before(
                events,
                u,
                events.len() as int,
            ) by {
            if stage == LoginStage::StoringSession(u) {
                assert(password_checked_before(prev, u, n));
                let (i, j) = choose|i: int, j: int|
                    0 <= i < j < n && prev[i] == LoginEvent::UserLookedUp(Some(u)) && prev[j]
                        == LoginEvent::PasswordChecked(true);
                assert(events[i] == prev[i] && events[j] == prev[j]);
            } else {
                assert(stage == LoginStage::CheckingPassword(u));
                assert(user_found_before(prev, u, n));
                let i = choose|i: int| 0 <= i < n && prev[i] == LoginEvent::UserLookedUp(Some(u));
                assert(events[i] == prev[i]);
                assert(events[n] == LoginEvent::PasswordChecked(true));
            }
        }
        assert forall|k: int|
            0 <= k < events.len() implies match #[trigger] login_run(events).1[k] {
                LoginAction::Reply(LoginReply::LoggedIn(u)) => password_checked_before(events, u, k),
                _ => true,
            } by {
            if let LoginAction::Reply(LoginReply::LoggedIn(u)) = login_run(events).1[k] {
            if k < n {
                assert(login_run(events).1[k] == actions[k]);
                assert(password_checked_before(prev, u, k));
                let (i, j) = choose|i: int, j: int|
                    0 <= i < j < k && prev[i] == LoginEvent::UserLookedUp(Some(u)) && prev[j]
                        == LoginEvent::PasswordChecked(true);
                assert(events[i] == prev[i] && events[j] == prev[j]);
            } else {
                assert(stage == LoginStage::StoringSession(u));
                assert(password_checked_before(prev, u, n));
                let (i, j) = choose|i: int, j: int|
                    0 <= i < j < n && prev[i] == LoginEvent::UserLookedUp(Some(u)) && prev[j]
                        == LoginEvent::PasswordChecked(true);
                assert(events[i] == prev[i] && events[j] == prev[j]);
            }
            }
        }
    }
}

/// A log-in succeeds only for a user who was found and whose password
/// then checked out: whenever a run of log-in steps answers "logged in as
/// `u`", an earlier event found user `u` and a later one, still before the
/// answer, reported a matching password.
pub proof fn law_login_requires_password(events: Seq<LoginEvent>, u: i32, k: int)
    requires
        0 <= k < login_run(events).1.len(),
        login_run(events).1[k] == LoginAction::Reply(LoginReply::LoggedIn(u)),
    ensures
        exists|i: int, j: int|
            0 <= i < j < k && events[i] == LoginEvent::UserLookedUp(Some(u)) && events[j]
                == LoginEvent::PasswordChecked(true),
{
    lemma_login_run(events);
    assert(login_run(events).1[k] == LoginAction::Reply(LoginReply::LoggedIn(u)));
}

/// The session is written only for a user whose password checked out:
/// every `StoreSession(u)` action follows a successful password check of
/// user `u`.
pub proof fn law_session_only_after_password(events: Seq<LoginEvent>, u: i32, k: int)
    requires
        0 <= k < login_run(events).1.len(),
        login_run(events).1[k] == LoginAction::StoreSession(u),
    ensures
        exists|i: int, j: int|
            0 <= i < j <= k && events[i] == LoginEvent::UserLookedUp(Some(u)) && events[j]
                == LoginEvent::PasswordChecked(true),
{
    lemma_login_run(events);
    lemma_login_run(events.take(k + 1));
    lemma_login_run(events.take(k));
    lemma_run_prefix(events, k + 1);
    lemma_run_prefix(events, k);
    let prev = events.take(k);
    assert(events.take(k + 1).drop_last() =~= prev);
    let (stage, _) = login_run(prev);
    assert(events.take(k + 1).last() == events[k]);
    assert(login_run(events.take(k + 1)).1[k] == login_run(events).1[k]);
    assert(login_next(stage, events[k]).1 == LoginAction::StoreSession(u));
    assert(stage == LoginStage::CheckingPassword(u));
    assert(user_found_before(prev, u, k));
    let i = choose|i: int| 0 <= i < k && prev[i] == LoginEvent::UserLookedUp(Some(u));
    assert(events[i] == prev[i]);
    assert(events[k] == LoginEvent::PasswordChecked(true));
}

/// A run's actions on a prefix are the prefix of its actions.
proof fn lemma_run_prefix(events: Seq<LoginEvent>, m: int)
    requires
        0 <= m <= events.len(),
    ensures
        login_run(events.take(m)).1 == login_run(events).1.take(m),
    decreases events.len(),
{
    lemma_login_run(events);
    lemma_login_run(events.take(m));
    if m < events.len() {
        assert(events.drop_last().take(m) =~= events.take(m));
        lemma_run_prefix(events.drop_last(), m);
        lemma_login_run(events.drop_last());
        assert(login_run(events).1.take(m) =~= login_run(events.drop_last()).1.take(m));
    } else {
        assert(events.take(m) =~= events);
        assert(login_run(events).1.take(m) =~= login_run(events).1);
    }
}

/// `actix_session::Session`, the request's cookie session, held here only
/// to be passed to the calls below.
#[verifier::external_type_specification]
#[verifier::external_body]
pub struct ExSession(actix_session::Session);

/// What a session holds: each key with its JSON-encoded value.
pub uninterp spec fn session_entries(s: actix_session::Session) -> Map<Seq<char>, Seq<char>>;

/// Whether the session was flagged for deletion. `purge` empties the
/// entries, and a purged session then ignores every write and removal, so
/// it holds nothing. (The middleware fills a session from the store only
/// when the request arrives, before a handler can purge it.)
pub uninterp spec fn session_purged(s: actix_session::Session) -> bool;

/// The entries of an empty session.
pub open spec fn no_entries() -> Map<Seq<char>, Seq<char>> {
    Map::empty()
}

/// `actix_session::Session::insert(key, value)` for an `i32` value. The
/// value's JSON text (its decimal digits, after a `-` when negative) is
/// written by `serde_json` into a `Vec`, which cannot fail, so the call
/// returns `Ok`; unless the session is purged it stores that text under
/// `key`. A purged session holds no entries and keeps none.
#[verifier::external_body]
fn session_insert_i32(s: &mut actix_session::Session, key: &str, value: i32) -> (r: bool)
    ensures
        r,
        session_purged(*old(s)) ==> session_entries(*final(s)) == no_entries(),
        session_purged(*final(s)) == session_purged(*old(s)),
        session_entries(*final(s)) == (if session_purged(*old(s)) {
            session_entries(*old(s))
        } else {
            session_entries(*old(s)).insert(key@, int_text(value as int))
        }),
{
    s.insert(key, value).is_ok()
}

/// `actix_session::Session::remove(key)`: unless the session is purged, it
/// takes the entry under `key` out and hands back its stored text; on a
/// purged session, which holds no entries, it does nothing and hands back
/// `None`.
#[verifier::external_body]
fn session_remove(s: &mut actix_session::Session, key: &str) -> (r: Option<String>)
    ensures
        session_purged(*final(s)) == session_purged(*old(s)),
        session_purged(*old(s)) ==> r is None,
        session_purged(*old(s)) ==> session_entries(*final(s)) == session_entries(*old(s)),
        session_purged(*old(s)) ==> session_entries(*final(s)) == no_entries(),
        !session_purged(*old(s)) ==> session_entries(*final(s)) == session_entries(
            *old(s),
        ).remove(key@) && match r {
            Some(v) => session_entries(*old(s)).contains_key(key@) && session_entries(*old(s))[key@]
                == v@,
            None => !session_entries(*old(s)).contains_key(key@),
        },
{
    s.remove(key)
}

/// The session key that holds the logged-in user.
pub open spec fn user_key() -> Seq<char> {
    "user_id"@
}

/// The entries of a session after user `user_id` logged in.
pub open spec fn entries_after_login(m: Map<Seq<char>, Seq<char>>, user_id: i32) -> Map<
    Seq<char>,
    Seq<char>,
> {
    m.insert(user_key(), int_text(user_id as int))
}

/// The answer to a log-out: which user left, when the session held one.
pub open spec fn logout_text(removed: Option<Seq<char>>) -> Option<Seq<char>> {
    match removed {
        Some(id) => Some("User "@ + id + " logged out successfully"@),
        None => None,
    }
}

/// The answer to a log-out from a session with entries `m`.
pub open spec fn logout_answer(m: Map<Seq<char>, Seq<char>>) -> Option<Seq<char>> {
    if m.contains_key(user_key()) {
        logout_text(Some(m[user_key()]))
    } else {
        None
    }
}

impl Login {
    /// Opens the session of user `user_id`: writes the id under
    /// `"user_id"`. A purged session holds nothing and stays so.
    pub fn open_session(session: &mut actix_session::Session, user_id: i32)
        ensures
            session_purged(*final(session)) == session_purged(*old(session)),
            session_entries(*final(session)) == (if session_purged(*old(session)) {
                no_entries()
            } else {
                entries_after_login(session_entries(*old(session)), user_id)
            }),
    {
        let _ = session_insert_i32(session, "user_id", user_id);
    }
}

impl Logout {
    /// Logs out: takes the user out of the session and answers which user
    /// left, `None` when none was logged in (a purged session holds none).
    pub fn logout(session: &mut actix_session::Session) -> (r: Option<String>)
        ensures
            session_purged(*final(session)) == session_purged(*old(session)),
            session_entries(*final(session)) == session_entries(*old(session)).remove(user_key()),
            match r {
                Some(m) => logout_answer(session_entries(*old(session))) == Some(m@),
                None => logout_answer(session_entries(*old(session))) is None,
            },
    {
        let removed = session_remove(session, "user_id");
        Self::logout_message(removed)
    }

    /// The answer to a log-out, given what the session held under
    /// `"user_id"` (its stored text) before it was removed.
    pub fn logout_message(removed: Option<String>) -> (r: Option<String>)
        ensures
            match removed {
                Some(id) => r matches Some(m) && logout_text(Some(id@)) == Some(m@),
                None => r is None,
            },
    {
        match removed {
            Some(id) => {
                let mut m = String::new();
                push_str(&mut m, "User ");
                push_str(&mut m, id.as_str());
                push_str(&mut m, " logged out successfully");
                Some(m)
            },
            None => None,
        }
    }
}

/// A log-out after a log-in names the user who logged in, and leaves the
/// session without a user, so a second log-out answers `None`; a session
/// that holds nothing (as a purged one) answers `None` as well.
pub proof fn law_logout_names_logged_in_user(m: Map<Seq<char>, Seq<char>>, user_id: i32)
    ensures
        logout_answer(entries_after_login(m, user_id)) == Some(
            "User "@ + int_text(user_id as int) + " logged out successfully"@,
        ),
        logout_answer(entries_after_login(m, user_id).remove(user_key())) is None,
        logout_answer(no_entries()) is None,
{
}

} // verus!
