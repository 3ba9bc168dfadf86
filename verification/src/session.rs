//! Sessions: the server-side state behind an opaque token, the store that
//! keeps it between requests, the binder that resolves a request's token, and
//! the manager through which a request reads and changes its identity.

use crate::user::{user_view, CredentialStore, Credentials, User, UserView};
use std::collections::HashMap;
use vstd::prelude::*;
use vstd::std_specs::hash::group_hash_axioms;

verus! {

broadcast use group_hash_axioms;

/// What the server remembers of one session: the user it is authenticated
/// for, if any, and the time from which it no longer counts.
#[derive(Clone, Copy, Debug, PartialEq, Eq)]
pub struct SessionState {
    pub user_id: Option<i64>,
    pub expires_at: u64,
}

impl SessionState {
    /// The state of a session that nobody has logged in to.
    pub open spec fn anonymous(expires_at: u64) -> SessionState {
        SessionState { user_id: None, expires_at }
    }

    /// Whether the session still counts at `now`.
    pub open spec fn live_at(self, now: u64) -> bool {
        now < self.expires_at
    }

    /// The user that the session resolves to: the one whose identifier it
    /// holds, if that user exists. An identifier without a user resolves to
    /// nobody.
    pub open spec fn identity(self, users: Credentials) -> Option<UserView> {
        match self.user_id {
            Some(id) => users.by_id(id as int),
            None => None,
        }
    }
}

/// When a session made at `now` expires: `lifetime` later, or at the end of
/// time where that does not fit.
pub open spec fn expiry(now: u64, lifetime: u64) -> u64 {
    if now + lifetime > u64::MAX {
        u64::MAX
    } else {
        (now + lifetime) as u64
    }
}

/// The state that a token resolves to at `now`. An unknown token and an
/// expired session resolve to nothing.
pub open spec fn resolve(sessions: Map<u128, SessionState>, token: u128, now: u64) -> Option<
    SessionState,
> {
    if sessions.contains_key(token) && sessions[token].live_at(now) {
        Some(sessions[token])
    } else {
        None
    }
}

/// The sessions of the application by token.
pub struct SessionStore {
    sessions: HashMap<u128, SessionState>,
    lifetime: u64,
}

impl View for SessionStore {
    type V = Map<u128, SessionState>;

    closed spec fn view(&self) -> Map<u128, SessionState> {
        self.sessions@
    }
}

impl SessionStore {
    /// How long a session counts from its creation.
    pub closed spec fn lifetime(&self) -> u64 {
        self.lifetime
    }

    /// An empty store whose sessions count for `lifetime` from their creation.
    pub fn new(lifetime: u64) -> (store: Self)
        ensures
            store@ == Map::<u128, SessionState>::empty(),
            store.lifetime() == lifetime,
    {
        SessionStore { sessions: HashMap::new(), lifetime }
    }

    /// The state behind `token` at `now`, if the token is known and the
    /// session has not expired.
    pub fn load(&self, token: u128, now: u64) -> (state: Option<SessionState>)
        ensures
            state == resolve(self@, token, now),
    {
        match self.sessions.get(&token) {
            Some(state) => if now < state.expires_at {
                Some(*state)
            } else {
                None
            },
            None => None,
        }
    }

    /// Starts an anonymous session under `token`, which the caller drew at
    /// random. A token that is in use is refused and the store stays as it
    /// was.
    pub fn create(&mut self, token: u128, now: u64) -> (state: Option<SessionState>)
        ensures
            final(self).lifetime() == old(self).lifetime(),
            old(self)@.contains_key(token) ==> state is None && final(self)@ == old(self)@,
            !old(self)@.contains_key(token) ==> state == Some(
                SessionState::anonymous(expiry(now, old(self).lifetime())),
            ) && final(self)@ == old(self)@.insert(token, state->0),
    {
        if self.sessions.contains_key(&token) {
            return None;
        }
        let state = SessionState { user_id: None, expires_at: now.saturating_add(self.lifetime) };
        self.sessions.insert(token, state);
        Some(state)
    }

    /// Stores `state` under `token`, over whatever was there.
    pub fn save(&mut self, token: u128, state: SessionState)
        ensures
            final(self).lifetime() == old(self).lifetime(),
            final(self)@ == old(self)@.insert(token, state),
    {
        self.sessions.insert(token, state);
    }

    /// Forgets the session behind `token`, if there is one.
    pub fn delete(&mut self, token: u128)
        ensures
            final(self).lifetime() == old(self).lifetime(),
            final(self)@ == old(self)@.remove(token),
    {
        self.sessions.remove(&token);
    }
}

/// The session of one request: its token, fixed by the binder, and its state,
/// which only `login_user` and `logout_user` change.
#[derive(Clone, Copy, Debug, PartialEq, Eq)]
pub struct AuthSession {
    token: u128,
    state: SessionState,
}

impl AuthSession {
    /// The session's token.
    pub closed spec fn token(self) -> u128 {
        self.token
    }

    /// The session's state.
    pub closed spec fn state(self) -> SessionState {
        self.state
    }

    /// The session with this token and state.
    pub closed spec fn of(token: u128, state: SessionState) -> AuthSession {
        AuthSession { token, state }
    }

    /// A session is its token and its state.
    pub broadcast proof fn lemma_of(token: u128, state: SessionState)
        ensures
            (#[trigger] AuthSession::of(token, state)).token() == token,
            AuthSession::of(token, state).state() == state,
    {
    }

    /// Two sessions with the same token and state are the same.
    pub proof fn lemma_equal(self, other: AuthSession)
        requires
            self.token() == other.token(),
            self.state() == other.state(),
        ensures
            self == other,
    {
    }

    /// The session that a store outside this crate holds under `token`.
    pub fn resume(token: u128, state: SessionState) -> (session: Self)
        ensures
            session == AuthSession::of(token, state),
    {
        AuthSession { token, state }
    }

    /// The session's token.
    pub fn get_token(&self) -> (token: u128)
        ensures
            token == self.token(),
    {
        self.token
    }

    /// The session's state.
    pub fn get_state(&self) -> (state: SessionState)
        ensures
            state == self.state(),
    {
        self.state
    }

    /// The identifier of the user that the session is authenticated for.
    pub fn user_id(&self) -> (id: Option<i64>)
        ensures
            id == self.state().user_id,
    {
        self.state.user_id
    }

    /// The user of this request: the one that the session is authenticated
    /// for, if that user exists.
    pub fn current_user(&self, users: &CredentialStore) -> (user: Option<User>)
        ensures
            user_view(user) == self.state().identity(users@),
    {
        match self.state.user_id {
            Some(id) => users.get_user_by_id(id),
            None => None,
        }
    }

    /// Marks the session as authenticated for `id`. It does not check any
    /// credential: that is the caller's part.
    pub fn login_user(&mut self, id: i64)
        ensures
            *final(self) == AuthSession::of(
                old(self).token(),
                SessionState { user_id: Some(id), expires_at: old(self).state().expires_at },
            ),
    {
        self.state.user_id = Some(id);
    }

    /// Makes the session anonymous, whether or not it was authenticated.
    pub fn logout_user(&mut self)
        ensures
            *final(self) == AuthSession::of(
                old(self).token(),
                SessionState::anonymous(old(self).state().expires_at),
            ),
    {
        self.state.user_id = None;
    }
}

/// What the binder hands to a request: its session, and whether the token was
/// issued now, so that the response must carry it to the client.
#[derive(Clone, Copy, Debug, PartialEq, Eq)]
pub struct Binding {
    pub session: AuthSession,
    pub issued: bool,
}

/// Whether the binder keeps the token that the request presented.
pub open spec fn keeps_token(sessions: Map<u128, SessionState>, presented: Option<u128>, now: u64) -> bool {
    presented matches Some(token) && resolve(sessions, token, now) is Some
}

/// What the binder hands out: the session behind the presented token where
/// that resolves; else a new anonymous session under `fresh`; nothing where
/// `fresh` is in use.
pub open spec fn binding(
    sessions: Map<u128, SessionState>,
    lifetime: u64,
    presented: Option<u128>,
    fresh: u128,
    now: u64,
) -> Option<Binding> {
    if keeps_token(sessions, presented, now) {
        Some(
            Binding {
                session: AuthSession::of(presented->0, sessions[presented->0]),
                issued: false,
            },
        )
    } else if sessions.contains_key(fresh) {
        None
    } else {
        Some(
            Binding {
                session: AuthSession::of(fresh, SessionState::anonymous(expiry(now, lifetime))),
                issued: true,
            },
        )
    }
}

/// The sessions after the binder ran: one more where it issued a token.
pub open spec fn sessions_after_bind(
    sessions: Map<u128, SessionState>,
    lifetime: u64,
    presented: Option<u128>,
    fresh: u128,
    now: u64,
) -> Map<u128, SessionState> {
    if keeps_token(sessions, presented, now) || sessions.contains_key(fresh) {
        sessions
    } else {
        sessions.insert(fresh, SessionState::anonymous(expiry(now, lifetime)))
    }
}

/// Resolves the session of a request. `presented` is the token that the
/// request carried, if any; `fresh` is a token that the caller drew at random
/// for the case that a session has to be made. The result is `None` only
/// where `fresh` is needed and in use: the caller then draws another.
pub fn bind(store: &mut SessionStore, presented: Option<u128>, fresh: u128, now: u64) -> (bound:
    Option<Binding>)
    ensures
        final(store).lifetime() == old(store).lifetime(),
        bound == binding(old(store)@, old(store).lifetime(), presented, fresh, now),
        final(store)@ == sessions_after_bind(
            old(store)@,
            old(store).lifetime(),
            presented,
            fresh,
            now,
        ),
{
    if let Some(token) = presented {
        if let Some(state) = store.load(token, now) {
            return Some(Binding { session: AuthSession::resume(token, state), issued: false });
        }
    }
    match store.create(fresh, now) {
        Some(state) => Some(Binding { session: AuthSession::resume(fresh, state), issued: true }),
        None => None,
    }
}

/// Stores what a request did to its session. Nothing that a request changed
/// is kept before this call.
pub fn commit(store: &mut SessionStore, session: &AuthSession)
    ensures
        final(store).lifetime() == old(store).lifetime(),
        final(store)@ == old(store)@.insert(session.token(), session.state()),
{
    store.save(session.token, session.state);
}

} // verus!
