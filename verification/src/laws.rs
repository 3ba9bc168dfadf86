//! What holds across the operations: facts that relate several of them, each
//! proved from the specifications that their contracts use.

use crate::auth::{logged_in, logged_out, login_outcome};
use crate::error::AuthError;
use crate::session::{binding, sessions_after_bind, AuthSession, Binding, SessionState};
use crate::user::{Credentials, UserView};
use vstd::prelude::*;

verus! {

broadcast use AuthSession::lemma_of;

/// In a well-formed store a username that is present is present once.
pub proof fn lemma_username_counted_once(store: Credentials, username: Seq<char>)
    requires
        store.wf(),
    ensures
        store.count_username(username) == if store.has_username(username) {
            1nat
        } else {
            0nat
        },
    decreases store.rows.len(),
{
    let named = |u: UserView| u.username == username;
    reveal(Seq::filter);
    if store.rows.len() > 0 {
        let shorter = Credentials { rows: store.rows.drop_last(), next_id: store.next_id };
        assert forall|i: int| 0 <= i < shorter.rows.len() implies shorter.rows[i]
            == store.rows[i] by {}
        assert(shorter.wf()) by {
            assert forall|i: int, j: int| 0 <= i < j < shorter.rows.len() implies (
            #[trigger] shorter.rows[i]).username != (#[trigger] shorter.rows[j]).username by {
                assert(store.rows[i].username != store.rows[j].username);
            }
            assert forall|i: int, j: int| 0 <= i < j < shorter.rows.len() implies (
            #[trigger] shorter.rows[i]).id < (#[trigger] shorter.rows[j]).id by {
                assert(store.rows[i].id < store.rows[j].id);
            }
            assert forall|i: int| 0 <= i < shorter.rows.len() implies 1 <= (
            #[trigger] shorter.rows[i]).id < shorter.next_id by {
                assert(1 <= store.rows[i].id < store.next_id);
            }
        }
        lemma_username_counted_once(shorter, username);
        let last = store.rows.last();
        if named(last) {
            assert(store.has_username(username)) by {
                assert(store.rows[store.rows.len() - 1].username == username);
            }
            assert(!shorter.has_username(username)) by {
                if shorter.has_username(username) {
                    let i = choose|i: int|
                        0 <= i < shorter.rows.len() && (#[trigger] shorter.rows[i]).username
                            == username;
                    assert(store.rows[i].username != store.rows[store.rows.len() - 1].username);
                }
            }
        } else {
            if shorter.has_username(username) {
                let i = choose|i: int|
                    0 <= i < shorter.rows.len() && (#[trigger] shorter.rows[i]).username
                        == username;
                assert(store.rows[i].username == username);
            }
            if store.has_username(username) {
                let i = choose|i: int|
                    0 <= i < store.rows.len() && (#[trigger] store.rows[i]).username == username;
                assert(shorter.rows[i].username == username);
            }
        }
    } else {
        assert(!store.has_username(username));
    }
}

/// Of two registrations under one free username the first succeeds, the
/// second is refused as a duplicate and changes nothing, and the store then
/// holds that username once. (Creation takes the store exclusively, so two
/// requests cannot both find the username free.)
pub proof fn lemma_one_creation_per_username(
    store: Credentials,
    username: Seq<char>,
    first_hash: Seq<char>,
    second_hash: Seq<char>,
)
    requires
        store.wf(),
        !store.has_username(username),
        store.next_id < i64::MAX,
    ensures
        store.create_result(username) == Ok::<int, AuthError>(store.next_id),
        store.after_create(username, first_hash).create_result(username) == Err::<int, AuthError>(
            AuthError::DuplicateUsername,
        ),
        store.after_create(username, first_hash).after_create(username, second_hash)
            == store.after_create(username, first_hash),
        store.after_create(username, first_hash).count_username(username) == 1,
{
    let after = store.after_create(username, first_hash);
    crate::user::lemma_with_user_wf(store, username, first_hash);
    assert(after.has_username(username)) by {
        assert(after.rows[store.rows.len() as int].username == username);
    }
    lemma_username_counted_once(after, username);
}

/// A user that was just created is found under the new identifier and under
/// the username, with the hash that was stored.
pub proof fn lemma_created_user_is_found(
    store: Credentials,
    username: Seq<char>,
    password_hash: Seq<char>,
)
    requires
        store.wf(),
        store.create_result(username) is Ok,
    ensures
        store.after_create(username, password_hash).by_id(store.next_id) == Some(
            UserView { id: store.next_id, username: username, password: password_hash },
        ),
        store.after_create(username, password_hash).by_username(username) == Some(
            UserView { id: store.next_id, username: username, password: password_hash },
        ),
{
    let after = store.after_create(username, password_hash);
    let last = store.rows.len() as int;
    crate::user::lemma_with_user_wf(store, username, password_hash);
    assert(after.rows[last].id == store.next_id);
    assert(after.rows[last].username == username);
    assert(after.has_id(store.next_id));
    assert(after.has_username(username));
    let i = choose|i: int| 0 <= i < after.rows.len() && (#[trigger] after.rows[i]).id == store.next_id;
    assert(i == last) by {
        if i < last {
            assert(after.rows[i].id < after.rows[last].id);
        }
    }
    let j = choose|j: int|
        0 <= j < after.rows.len() && (#[trigger] after.rows[j]).username == username;
    assert(j == last) by {
        if j < last {
            assert(after.rows[j].username != after.rows[last].username);
        }
    }
}

/// After a registration that succeeded, the user of the session is the user
/// that was registered.
pub proof fn lemma_registered_user_is_current(
    store: Credentials,
    session: AuthSession,
    username: Seq<char>,
    password_hash: Seq<char>,
)
    requires
        store.wf(),
        store.create_result(username) is Ok,
    ensures
        logged_in(session, store.next_id).state().identity(
            store.after_create(username, password_hash),
        ) == Some(UserView { id: store.next_id, username: username, password: password_hash }),
{
    lemma_created_user_is_found(store, username, password_hash);
}

/// After a login that succeeded, the user of the session is the user with the
/// username of the login.
pub proof fn lemma_logged_in_user_is_current(
    store: Credentials,
    session: AuthSession,
    username: Seq<char>,
    password: Seq<char>,
)
    requires
        store.wf(),
        login_outcome(store, username, password) is Ok,
    ensures
        logged_in(session, login_outcome(store, username, password)->Ok_0).state().identity(store)
            == store.by_username(username),
        store.by_username(username) is Some,
{
    let i = choose|i: int|
        0 <= i < store.rows.len() && (#[trigger] store.rows[i]).username == username;
    let id = store.rows[i].id;
    assert(store.has_id(id));
    let j = choose|j: int| 0 <= j < store.rows.len() && (#[trigger] store.rows[j]).id == id;
    assert(i == j) by {
        if i < j {
            assert(store.rows[i].id < store.rows[j].id);
        }
        if j < i {
            assert(store.rows[j].id < store.rows[i].id);
        }
    }
}

/// An anonymous session has no user, whoever is registered. A login that
/// failed leaves the session as it was, so a session that was anonymous
/// before it still has none.
pub proof fn lemma_anonymous_has_no_user(store: Credentials, expires_at: u64)
    ensures
        SessionState::anonymous(expires_at).identity(store) is None,
{
}

/// After a logout the session has no user, whatever it had before.
pub proof fn lemma_logout_clears_identity(store: Credentials, session: AuthSession)
    ensures
        logged_out(session).state().identity(store) is None,
        logged_out(logged_out(session)) == logged_out(session),
{
}

/// Logging in twice for one user is logging in once.
pub proof fn lemma_login_idempotent(session: AuthSession, id: int)
    ensures
        logged_in(logged_in(session, id), id) == logged_in(session, id),
{
}

/// A session that one request committed is the session of the next request
/// that presents its token before it expires, with the same user; the binder
/// issues no token and leaves the store as it is.
pub proof fn lemma_session_persists(
    sessions: Map<u128, SessionState>,
    lifetime: u64,
    session: AuthSession,
    users: Credentials,
    fresh: u128,
    now: u64,
)
    requires
        session.state().live_at(now),
    ensures
        ({
            let stored = sessions.insert(session.token(), session.state());
            &&& binding(stored, lifetime, Some(session.token()), fresh, now) == Some(
                Binding { session, issued: false },
            )
            &&& sessions_after_bind(stored, lifetime, Some(session.token()), fresh, now) == stored
            &&& binding(stored, lifetime, Some(session.token()), fresh, now)->0.session.state().identity(
                users,
            ) == session.state().identity(users)
        }),
{
    let stored = sessions.insert(session.token(), session.state());
    session.lemma_equal(AuthSession::of(session.token(), stored[session.token()]));
}

/// A request without a usable token gets a new anonymous session under the
/// fresh token, and the store holds it from then on.
pub proof fn lemma_new_session_is_anonymous(
    sessions: Map<u128, SessionState>,
    lifetime: u64,
    users: Credentials,
    fresh: u128,
    now: u64,
)
    requires
        !sessions.contains_key(fresh),
    ensures
        binding(sessions, lifetime, None, fresh, now) matches Some(bound) && bound.issued
            && bound.session.token() == fresh && bound.session.state().identity(users) is None,
        sessions_after_bind(sessions, lifetime, None, fresh, now).contains_key(fresh),
{
}

} // verus!
