//! The operations that a request can trigger: who is logged in, login,
//! logout and registration. Each takes the session that the binder resolved
//! for the request, or `None` where the request has none, and the stores it
//! works on.

use crate::error::AuthError;
use crate::password::{cost_allowed, hash_password, password_matches, verify_password};
use crate::policy::{check_registration, registration_violation};
use crate::session::{AuthSession, SessionState};
use crate::user::{user_view, CredentialStore, Credentials, User};
use vstd::prelude::*;

verus! {

broadcast use AuthSession::lemma_of;

/// Where a request is sent after an operation succeeded.
#[derive(Clone, Copy, Debug, PartialEq, Eq)]
pub enum Route {
    /// The landing page of the application.
    Landing,
}

impl Route {
    /// The path of the route.
    pub fn path(&self) -> (path: &'static str)
        ensures
            path@ == "/"@,
    {
        "/"
    }
}

/// The session after a login for `id`: the same token and expiry, and `id` as
/// its user.
pub open spec fn logged_in(session: AuthSession, id: int) -> AuthSession {
    AuthSession::of(
        session.token(),
        SessionState { user_id: Some(id as i64), expires_at: session.state().expires_at },
    )
}

/// The session after a logout: the same token and expiry, and no user.
pub open spec fn logged_out(session: AuthSession) -> AuthSession {
    AuthSession::of(session.token(), SessionState::anonymous(session.state().expires_at))
}

/// Whom a login authenticates: the user with this username where the password
/// verifies against the stored hash.
pub open spec fn login_outcome(users: Credentials, username: Seq<char>, password: Seq<char>) -> Result<
    int,
    AuthError,
> {
    match users.by_username(username) {
        None => Err(AuthError::UserNotFound),
        Some(user) => if password_matches(password, user.password) {
            Ok(user.id)
        } else {
            Err(AuthError::WrongPassword)
        },
    }
}

/// The user of the request. A session that is anonymous, or authenticated for
/// a user that does not exist, has none; a request without a session fails.
pub fn get_user(auth: &Option<AuthSession>, users: &CredentialStore) -> (result: Result<
    Option<User>,
    AuthError,
>)
    ensures
        match *auth {
            None => result == Err::<Option<User>, AuthError>(AuthError::SessionUnavailable),
            Some(session) => result matches Ok(user) && user_view(user) == session.state().identity(
                users@,
            ),
        },
{
    match auth {
        None => Err(AuthError::SessionUnavailable),
        Some(session) => Ok(session.current_user(users)),
    }
}

/// Makes the session anonymous and sends the request to the landing page. It
/// succeeds on a session that was anonymous already.
pub fn logout(auth: &mut Option<AuthSession>) -> (result: Result<Route, AuthError>)
    ensures
        match *old(auth) {
            None => result == Err::<Route, AuthError>(AuthError::SessionUnavailable) && *final(auth)
                == *old(auth),
            Some(session) => result == Ok::<Route, AuthError>(Route::Landing) && *final(auth)
                == Some(logged_out(session)),
        },
{
    match *auth {
        None => Err(AuthError::SessionUnavailable),
        Some(session) => {
            let mut session = session;
            session.logout_user();
            *auth = Some(session);
            Ok(Route::Landing)
        },
    }
}

/// Ends a login once the password has been checked: a verified password logs
/// the user in and sends the request to the landing page, another leaves the
/// session as it was.
pub fn grant(auth: &mut AuthSession, user_id: i64, verified: bool) -> (result: Result<
    Route,
    AuthError,
>)
    ensures
        verified ==> result == Ok::<Route, AuthError>(Route::Landing) && *final(auth) == logged_in(
            *old(auth),
            user_id as int,
        ),
        !verified ==> result == Err::<Route, AuthError>(AuthError::WrongPassword) && *final(auth)
            == *old(auth),
{
    if verified {
        auth.login_user(user_id);
        Ok(Route::Landing)
    } else {
        Err(AuthError::WrongPassword)
    }
}

/// Logs a user in, given what the credential store holds under the username
/// of the attempt: nobody is `UserNotFound`, a password that does not verify
/// against the stored hash is `WrongPassword`, and either leaves the session
/// as it was.
pub fn authenticate(auth: &mut AuthSession, found: Option<User>, password: &str) -> (result: Result<
    Route,
    AuthError,
>)
    ensures
        match found {
            None => result == Err::<Route, AuthError>(AuthError::UserNotFound) && *final(auth)
                == *old(auth),
            Some(user) => if password_matches(password@, user.password@) {
                result == Ok::<Route, AuthError>(Route::Landing) && *final(auth) == logged_in(
                    *old(auth),
                    user.id as int,
                )
            } else {
                result == Err::<Route, AuthError>(AuthError::WrongPassword) && *final(auth) == *old(
                    auth,
                )
            },
        },
{
    match found {
        None => Err(AuthError::UserNotFound),
        Some(user) => {
            let verified = verify_password(password, user.password.as_str());
            grant(auth, user.id, verified)
        },
    }
}

/// Logs in the user with this username and password. On success the session
/// is authenticated for that user and the request goes to the landing page;
/// on any failure the session stays as it was.
pub fn login(
    auth: &mut Option<AuthSession>,
    users: &CredentialStore,
    username: String,
    password: String,
) -> (result: Result<Route, AuthError>)
    ensures
        match *old(auth) {
            None => result == Err::<Route, AuthError>(AuthError::SessionUnavailable) && *final(auth)
                == *old(auth),
            Some(session) => match login_outcome(users@, username@, password@) {
                Ok(id) => result == Ok::<Route, AuthError>(Route::Landing) && *final(auth) == Some(
                    logged_in(session, id),
                ),
                Err(e) => result == Err::<Route, AuthError>(e) && *final(auth) == *old(auth),
            },
        },
{
    match *auth {
        None => Err(AuthError::SessionUnavailable),
        Some(session) => {
            let mut session = session;
            let found = users.get_user_by_username(username.as_str());
            let result = authenticate(&mut session, found, password.as_str());
            *auth = Some(session);
            result
        },
    }
}

/// Ends a registration once the password has been hashed: creates the user
/// and logs the new user in. A username that is taken leaves store and
/// session as they were.
pub fn complete_registration(
    auth: &mut AuthSession,
    users: &mut CredentialStore,
    username: String,
    password_hash: String,
) -> (result: Result<Route, AuthError>)
    ensures
        old(users)@.wf(),
        final(users)@.wf(),
        final(users)@ == old(users)@.after_create(username@, password_hash@),
        match old(users)@.create_result(username@) {
            Ok(id) => result == Ok::<Route, AuthError>(Route::Landing) && *final(auth) == logged_in(
                *old(auth),
                id,
            ),
            Err(e) => result == Err::<Route, AuthError>(e) && *final(auth) == *old(auth),
        },
{
    match users.create_user(username, password_hash) {
        Ok(id) => {
            auth.login_user(id);
            Ok(Route::Landing)
        },
        Err(e) => Err(e),
    }
}

/// Registers a user and logs the new user in. The password is hashed at
/// `cost` with a fresh salt; the store never holds the plaintext.
///
/// Without a session it fails with `SessionUnavailable`; a registration that
/// breaks a rule fails with that rule's error. Past these the hasher may fail
/// with `HashingFailed`, and does so at a cost that it does not accept. Where
/// it does not fail, the result is that of creating the user:
/// `DuplicateUsername` where the username is taken, else a new user whose
/// stored hash verifies against the password, and a session authenticated
/// for that user. Every failure leaves store and session as they were.
pub fn register(
    auth: &mut Option<AuthSession>,
    users: &mut CredentialStore,
    cost: u32,
    username: String,
    password: String,
    confirm_password: String,
) -> (result: Result<Route, AuthError>)
    ensures
        old(users)@.wf(),
        final(users)@.wf(),
        result is Err ==> *final(auth) == *old(auth) && final(users)@ == old(users)@,
        result is Ok ==> cost_allowed(cost),
        match *old(auth) {
            None => result == Err::<Route, AuthError>(AuthError::SessionUnavailable),
            Some(session) => match registration_violation(
                username@,
                password@,
                confirm_password@,
            ) {
                Some(e) => result == Err::<Route, AuthError>(e),
                None => result == Err::<Route, AuthError>(AuthError::HashingFailed) || (match old(
                    users,
                )@.create_result(username@) {
                    Ok(id) => {
                        &&& result == Ok::<Route, AuthError>(Route::Landing)
                        &&& *final(auth) == Some(logged_in(session, id))
                        &&& exists|password_hash: Seq<char>|
                            #![trigger old(users)@.with_user(username@, password_hash)]
                            password_matches(password@, password_hash) && final(users)@ == old(
                                users,
                            )@.with_user(username@, password_hash)
                    },
                    Err(e) => result == Err::<Route, AuthError>(e),
                }),
            },
        },
{
    proof {
        use_type_invariant(&*users);
    }
    let session = match *auth {
        None => {
            return Err(AuthError::SessionUnavailable);
        },
        Some(session) => session,
    };
    match check_registration(username.as_str(), password.as_str(), confirm_password.as_str()) {
        Err(e) => {
            return Err(e);
        },
        Ok(_) => {},
    }
    let password_hash = match hash_password(password.as_str(), cost) {
        Err(e) => {
            return Err(e);
        },
        Ok(password_hash) => password_hash,
    };
    let ghost stored = password_hash@;
    let mut session = session;
    let result = complete_registration(&mut session, users, username, password_hash);
    if result.is_ok() {
        *auth = Some(session);
        assert(users@ == old(users)@.with_user(username@, stored));
    }
    result
}

} // verus!
