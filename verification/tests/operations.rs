use expenses_splitter::auth::{
    authenticate, complete_registration, get_user, grant, login, logout, register, Route,
};
use expenses_splitter::error::AuthError;
use expenses_splitter::password::{hash_password, verify_password};
use expenses_splitter::session::{AuthSession, SessionState};
use expenses_splitter::user::{CredentialStore, User};

const FAST: u32 = 4;

fn anonymous() -> Option<AuthSession> {
    Some(AuthSession::resume(
        77,
        SessionState {
            user_id: None,
            expires_at: 1000,
        },
    ))
}

fn with_alice() -> CredentialStore {
    let mut users = CredentialStore::new();
    let hashed = hash_password("alicepw1", FAST).unwrap();
    users.create_user("alice".to_string(), hashed).unwrap();
    users
}

fn s(text: &str) -> String {
    text.to_string()
}

#[test]
fn landing_route_is_the_root() {
    assert_eq!(Route::Landing.path(), "/");
}

#[test]
fn register_bob_then_current_user_is_bob() {
    let mut auth = anonymous();
    let mut users = CredentialStore::new();
    let result = register(
        &mut auth,
        &mut users,
        FAST,
        s("bobby"),
        s("pw123456"),
        s("pw123456"),
    );
    assert_eq!(result, Ok(Route::Landing));
    let user = get_user(&auth, &users).unwrap().unwrap();
    assert_eq!(user.username, "bobby");
    assert_eq!(user.id, 1);
    assert_ne!(user.password, "pw123456");
    assert!(verify_password("pw123456", &user.password));
    assert_eq!(auth.unwrap().user_id(), Some(1));
}

#[test]
fn register_with_three_letter_name_is_refused_by_policy() {
    let mut auth = anonymous();
    let mut users = CredentialStore::new();
    let result = register(
        &mut auth,
        &mut users,
        FAST,
        s("bob"),
        s("pw123456"),
        s("pw123456"),
    );
    assert_eq!(result, Err(AuthError::UsernameTooShort));
    assert_eq!(users.get_user_by_username("bob"), None);
    assert_eq!(auth, anonymous());
}

#[test]
fn register_short_password_is_refused() {
    let mut auth = anonymous();
    let mut users = CredentialStore::new();
    let result = register(&mut auth, &mut users, FAST, s("x"), s("short"), s("short"));
    assert_eq!(result, Err(AuthError::PasswordTooShort));
    assert_eq!(users.get_user_by_username("x"), None);
    assert_eq!(get_user(&auth, &users), Ok(None));
}

#[test]
fn register_at_the_length_boundaries() {
    let mut users = CredentialStore::new();
    let mut auth = anonymous();
    assert_eq!(
        register(
            &mut auth,
            &mut users,
            FAST,
            s("alice"),
            s("1234567"),
            s("1234567")
        ),
        Err(AuthError::PasswordTooShort)
    );
    assert_eq!(
        register(
            &mut auth,
            &mut users,
            FAST,
            s("alic"),
            s("12345678"),
            s("12345678")
        ),
        Err(AuthError::UsernameTooShort)
    );
    assert_eq!(users.get_user_by_id(1), None);
    assert_eq!(
        register(
            &mut auth,
            &mut users,
            FAST,
            s("alice"),
            s("12345678"),
            s("12345678")
        ),
        Ok(Route::Landing)
    );
    assert_eq!(users.get_user_by_id(1).unwrap().username, "alice");
}

#[test]
fn register_mismatch_is_refused_first() {
    let mut auth = anonymous();
    let mut users = CredentialStore::new();
    let result = register(
        &mut auth,
        &mut users,
        FAST,
        s("x"),
        s("pw123456"),
        s("pw123457"),
    );
    assert_eq!(result, Err(AuthError::PasswordMismatch));
    assert_eq!(auth, anonymous());
}

#[test]
fn register_taken_username_is_a_duplicate() {
    let mut users = with_alice();
    let before = users.get_user_by_username("alice");
    let mut auth = anonymous();
    let result = register(
        &mut auth,
        &mut users,
        FAST,
        s("alice"),
        s("otherpw12"),
        s("otherpw12"),
    );
    assert_eq!(result, Err(AuthError::DuplicateUsername));
    assert_eq!(users.get_user_by_username("alice"), before);
    assert_eq!(users.get_user_by_id(2), None);
    assert_eq!(get_user(&auth, &users), Ok(None));
}

#[test]
fn register_with_a_cost_out_of_range_changes_nothing() {
    let mut auth = anonymous();
    let mut users = CredentialStore::new();
    let result = register(
        &mut auth,
        &mut users,
        99,
        s("alice"),
        s("pw123456"),
        s("pw123456"),
    );
    assert_eq!(result, Err(AuthError::HashingFailed));
    assert_eq!(users.get_user_by_username("alice"), None);
    assert_eq!(auth, anonymous());
}

#[test]
fn login_unknown_user_is_not_found() {
    let users = with_alice();
    let mut auth = anonymous();
    let result = login(&mut auth, &users, s("nouser"), s("anything"));
    assert_eq!(result, Err(AuthError::UserNotFound));
    assert_eq!(auth, anonymous());
    assert_eq!(get_user(&auth, &users), Ok(None));
}

#[test]
fn login_wrong_password_fails() {
    let users = with_alice();
    let mut auth = anonymous();
    let result = login(&mut auth, &users, s("alice"), s("wrongpw"));
    assert_eq!(result, Err(AuthError::WrongPassword));
    assert_eq!(auth, anonymous());
    assert_eq!(get_user(&auth, &users), Ok(None));
}

#[test]
fn login_then_current_user_then_logout() {
    let users = with_alice();
    let mut auth = anonymous();
    assert_eq!(
        login(&mut auth, &users, s("alice"), s("alicepw1")),
        Ok(Route::Landing)
    );
    let user = get_user(&auth, &users).unwrap().unwrap();
    assert_eq!(user.username, "alice");
    assert_eq!(user.id, 1);
    assert_eq!(logout(&mut auth), Ok(Route::Landing));
    assert_eq!(get_user(&auth, &users), Ok(None));
    assert_eq!(auth, anonymous());
}

#[test]
fn failed_login_keeps_an_earlier_login() {
    let mut users = with_alice();
    let hashed = hash_password("bobbypw12", FAST).unwrap();
    users.create_user(s("bobby"), hashed).unwrap();
    let mut auth = anonymous();
    login(&mut auth, &users, s("alice"), s("alicepw1")).unwrap();
    assert_eq!(
        login(&mut auth, &users, s("bobby"), s("alicepw1")),
        Err(AuthError::WrongPassword)
    );
    assert_eq!(
        get_user(&auth, &users).unwrap().unwrap().username,
        "alice"
    );
    assert_eq!(
        login(&mut auth, &users, s("bobby"), s("bobbypw12")),
        Ok(Route::Landing)
    );
    assert_eq!(
        get_user(&auth, &users).unwrap().unwrap().username,
        "bobby"
    );
}

#[test]
fn login_against_a_malformed_stored_hash_is_a_wrong_password() {
    let mut users = CredentialStore::new();
    users.create_user(s("alice"), s("not a hash")).unwrap();
    let mut auth = anonymous();
    assert_eq!(
        login(&mut auth, &users, s("alice"), s("not a hash")),
        Err(AuthError::WrongPassword)
    );
    assert_eq!(auth, anonymous());
}

#[test]
fn logout_when_anonymous_succeeds() {
    let mut auth = anonymous();
    assert_eq!(logout(&mut auth), Ok(Route::Landing));
    assert_eq!(auth, anonymous());
    assert_eq!(logout(&mut auth), Ok(Route::Landing));
    assert_eq!(auth, anonymous());
}

#[test]
fn without_a_session_every_operation_fails() {
    let mut users = with_alice();
    let mut auth: Option<AuthSession> = None;
    assert_eq!(get_user(&auth, &users), Err(AuthError::SessionUnavailable));
    assert_eq!(
        login(&mut auth, &users, s("alice"), s("alicepw1")),
        Err(AuthError::SessionUnavailable)
    );
    assert_eq!(
        register(
            &mut auth,
            &mut users,
            FAST,
            s("bobby"),
            s("pw123456"),
            s("pw123456")
        ),
        Err(AuthError::SessionUnavailable)
    );
    assert_eq!(logout(&mut auth), Err(AuthError::SessionUnavailable));
    assert_eq!(auth, None);
    assert_eq!(users.get_user_by_username("bobby"), None);
}

#[test]
fn grant_follows_the_verdict() {
    let mut session = anonymous().unwrap();
    assert_eq!(grant(&mut session, 5, false), Err(AuthError::WrongPassword));
    assert_eq!(session.user_id(), None);
    assert_eq!(grant(&mut session, 5, true), Ok(Route::Landing));
    assert_eq!(session.user_id(), Some(5));
    assert_eq!(session.get_token(), 77);
    assert_eq!(session.get_state().expires_at, 1000);
}

#[test]
fn authenticate_follows_the_lookup() {
    let mut session = anonymous().unwrap();
    assert_eq!(
        authenticate(&mut session, None, "pw"),
        Err(AuthError::UserNotFound)
    );
    let alice = User {
        id: 3,
        username: s("alice"),
        password: s("$2a$04$UuTkLRZZ6QofpDOlMz32MuuxEHA43WOemOYHPz6.SjsVsyO1tDU96"),
    };
    assert_eq!(
        authenticate(&mut session, Some(alice.clone()), "passwore"),
        Err(AuthError::WrongPassword)
    );
    assert_eq!(session.user_id(), None);
    assert_eq!(
        authenticate(&mut session, Some(alice), "password"),
        Ok(Route::Landing)
    );
    assert_eq!(session.user_id(), Some(3));
}

#[test]
fn complete_registration_creates_and_logs_in() {
    let mut users = with_alice();
    let mut session = anonymous().unwrap();
    assert_eq!(
        complete_registration(&mut session, &mut users, s("alice"), s("h")),
        Err(AuthError::DuplicateUsername)
    );
    assert_eq!(session.user_id(), None);
    assert_eq!(
        complete_registration(&mut session, &mut users, s("bobby"), s("h")),
        Ok(Route::Landing)
    );
    assert_eq!(session.user_id(), Some(2));
    assert_eq!(
        users.get_user_by_id(2),
        Some(User {
            id: 2,
            username: s("bobby"),
            password: s("h")
        })
    );
}
