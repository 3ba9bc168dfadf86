use expenses_splitter::error::AuthError;
use expenses_splitter::policy::{
    check_registration, confirm_password_error, is_form_valid, is_login_form_valid,
    password_error, same_text,
    username_error, PASSWORD_MIN_LENGTH, USERNAME_MIN_LENGTH,
};

#[test]
fn minimum_lengths() {
    assert_eq!(USERNAME_MIN_LENGTH, 5);
    assert_eq!(PASSWORD_MIN_LENGTH, 8);
}

#[test]
fn username_boundary_is_five_characters() {
    assert_eq!(username_error(""), Some(AuthError::UsernameEmpty));
    assert_eq!(username_error("a"), Some(AuthError::UsernameTooShort));
    assert_eq!(username_error("abcd"), Some(AuthError::UsernameTooShort));
    assert_eq!(username_error("abcde"), None);
    assert_eq!(username_error("abcdef"), None);
}

#[test]
fn password_boundary_is_eight_characters() {
    assert_eq!(password_error(""), Some(AuthError::PasswordEmpty));
    assert_eq!(password_error("short"), Some(AuthError::PasswordTooShort));
    assert_eq!(password_error("1234567"), Some(AuthError::PasswordTooShort));
    assert_eq!(password_error("12345678"), None);
    assert_eq!(password_error("123456789"), None);
}

#[test]
fn lengths_count_characters() {
    // seven characters, more than seven bytes
    assert_eq!(password_error("pässwör"), Some(AuthError::PasswordTooShort));
    assert_eq!(password_error("pässwörd"), None);
    assert_eq!(username_error("äöüß"), Some(AuthError::UsernameTooShort));
    assert_eq!(username_error("äöüßé"), None);
}

#[test]
fn confirmation_must_equal_the_password() {
    assert_eq!(
        confirm_password_error("", "pw123456"),
        Some(AuthError::PasswordEmpty)
    );
    assert_eq!(confirm_password_error("", ""), Some(AuthError::PasswordEmpty));
    assert_eq!(
        confirm_password_error("pw123457", "pw123456"),
        Some(AuthError::PasswordMismatch)
    );
    assert_eq!(
        confirm_password_error("pw12345", "pw123456"),
        Some(AuthError::PasswordMismatch)
    );
    assert_eq!(confirm_password_error("pw123456", "pw123456"), None);
    assert_eq!(confirm_password_error("short", "short"), None);
}

#[test]
fn form_is_valid_when_every_field_is() {
    assert!(is_form_valid("alice", "pw123456", "pw123456"));
    assert!(!is_form_valid("alic", "pw123456", "pw123456"));
    assert!(!is_form_valid("alice", "pw12345", "pw12345"));
    assert!(!is_form_valid("alice", "pw123456", "pw123457"));
    assert!(!is_form_valid("", "", ""));
}

#[test]
fn registration_check_reports_the_first_broken_rule() {
    assert_eq!(
        check_registration("x", "short", "short"),
        Err(AuthError::PasswordTooShort)
    );
    assert_eq!(
        check_registration("x", "short", "shorx"),
        Err(AuthError::PasswordMismatch)
    );
    assert_eq!(
        check_registration("x", "", ""),
        Err(AuthError::PasswordEmpty)
    );
    assert_eq!(
        check_registration("x", "pw123456", "pw123456"),
        Err(AuthError::UsernameTooShort)
    );
    assert_eq!(
        check_registration("", "pw123456", "pw123456"),
        Err(AuthError::UsernameEmpty)
    );
    assert_eq!(check_registration("alice", "pw123456", "pw123456"), Ok(()));
}

#[test]
fn registration_check_at_the_boundaries() {
    assert_eq!(
        check_registration("alice", "1234567", "1234567"),
        Err(AuthError::PasswordTooShort)
    );
    assert_eq!(check_registration("alice", "12345678", "12345678"), Ok(()));
    assert_eq!(
        check_registration("abcd", "12345678", "12345678"),
        Err(AuthError::UsernameTooShort)
    );
    assert_eq!(check_registration("abcde", "12345678", "12345678"), Ok(()));
}

#[test]
fn same_text_compares_characters() {
    assert!(same_text("", ""));
    assert!(same_text("abc", "abc"));
    assert!(!same_text("abc", "abd"));
    assert!(!same_text("abc", "ab"));
    assert!(!same_text("Alice", "alice"));
    assert!(same_text("pässwörd", "pässwörd"));
}

#[test]
fn messages_of_the_errors() {
    assert_eq!(AuthError::UserNotFound.message(), "User does not exist");
    assert_eq!(AuthError::WrongPassword.message(), "Password is incorrect");
    assert_eq!(
        AuthError::PasswordMismatch.message(),
        "Passwords do not match"
    );
    assert_eq!(
        AuthError::UsernameEmpty.message(),
        "Username cannot be empty"
    );
    assert_eq!(
        AuthError::UsernameTooShort.message(),
        "Username must be at least 5 characters long"
    );
    assert_eq!(
        AuthError::PasswordEmpty.message(),
        "Password cannot be empty"
    );
    assert_eq!(
        AuthError::PasswordTooShort.message(),
        "Password must be at least 8 characters long"
    );
    assert_eq!(
        AuthError::SessionUnavailable.message(),
        "Auth session missing."
    );
    assert_eq!(
        AuthError::DuplicateUsername.message(),
        "Username is already taken"
    );
    assert_eq!(
        AuthError::HashingFailed.message(),
        "Password could not be hashed"
    );
    assert_eq!(AuthError::StoreFull.message(), "User could not be stored");
}

#[test]
fn login_form_needs_both_fields() {
    assert!(is_login_form_valid("a", "b"));
    assert!(!is_login_form_valid("", "b"));
    assert!(!is_login_form_valid("a", ""));
    assert!(!is_login_form_valid("", ""));
}
