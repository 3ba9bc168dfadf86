//! The rules that a registration must meet: minimum lengths of username and
//! password, counted in characters, and a confirmation equal to the password.
//! A form checks them field by field; registration checks them again.

use crate::error::AuthError;
use vstd::prelude::*;
use vstd::string::StrSliceExecFns;
use vstd::string::StringSliceAdditionalSpecFns;
use vstd::utf8::encode_utf8_decode_utf8;

verus! {

/// The least number of characters in a username.
pub const USERNAME_MIN_LENGTH: usize = 5;

/// The least number of characters in a password.
pub const PASSWORD_MIN_LENGTH: usize = 8;

/// What is wrong with a username, if anything.
pub open spec fn username_violation(username: Seq<char>) -> Option<AuthError> {
    if username.len() == 0 {
        Some(AuthError::UsernameEmpty)
    } else if username.len() < USERNAME_MIN_LENGTH {
        Some(AuthError::UsernameTooShort)
    } else {
        None
    }
}

/// What is wrong with a password, if anything.
pub open spec fn password_violation(password: Seq<char>) -> Option<AuthError> {
    if password.len() == 0 {
        Some(AuthError::PasswordEmpty)
    } else if password.len() < PASSWORD_MIN_LENGTH {
        Some(AuthError::PasswordTooShort)
    } else {
        None
    }
}

/// What is wrong with the confirmation of a password, if anything.
pub open spec fn confirmation_violation(confirm: Seq<char>, password: Seq<char>) -> Option<
    AuthError,
> {
    if confirm.len() == 0 {
        Some(AuthError::PasswordEmpty)
    } else if confirm != password {
        Some(AuthError::PasswordMismatch)
    } else {
        None
    }
}

/// Whether a login form with these two fields may be submitted: neither is
/// empty.
pub open spec fn login_form_valid(username: Seq<char>, password: Seq<char>) -> bool {
    username.len() > 0 && password.len() > 0
}

/// Whether a registration form with these three fields may be submitted.
pub open spec fn form_valid(username: Seq<char>, password: Seq<char>, confirm: Seq<char>) -> bool {
    &&& username_violation(username) is None
    &&& password_violation(password) is None
    &&& confirmation_violation(confirm, password) is None
}

/// The first rule that a registration breaks: a confirmation that differs,
/// then the password's length, then the username's.
pub open spec fn registration_violation(
    username: Seq<char>,
    password: Seq<char>,
    confirm: Seq<char>,
) -> Option<AuthError> {
    if password != confirm {
        Some(AuthError::PasswordMismatch)
    } else if password_violation(password) is Some {
        password_violation(password)
    } else {
        username_violation(username)
    }
}

/// Whether two strings hold the same characters.
pub fn same_text(a: &str, b: &str) -> (same: bool)
    ensures
        same == (a@ == b@),
{
    let left = a.as_bytes();
    let right = b.as_bytes();
    if left.len() != right.len() {
        return false;
    }
    let mut i: usize = 0;
    while i < left.len()
        invariant
            i <= left@.len(),
            left@.len() == right@.len(),
            left@ == a.spec_bytes(),
            right@ == b.spec_bytes(),
            forall|j: int| 0 <= j < i ==> left@[j] == right@[j],
        decreases left@.len() - i,
    {
        if left[i] != right[i] {
            return false;
        }
        i += 1;
    }
    proof {
        assert(left@ =~= right@);
        encode_utf8_decode_utf8(a@);
        encode_utf8_decode_utf8(b@);
    }
    true
}

/// Checks a username as a form does.
pub fn username_error(username: &str) -> (violation: Option<AuthError>)
    ensures
        violation == username_violation(username@),
{
    let length = username.unicode_len();
    if length == 0 {
        Some(AuthError::UsernameEmpty)
    } else if length < USERNAME_MIN_LENGTH {
        Some(AuthError::UsernameTooShort)
    } else {
        None
    }
}

/// Checks a password as a form does.
pub fn password_error(password: &str) -> (violation: Option<AuthError>)
    ensures
        violation == password_violation(password@),
{
    let length = password.unicode_len();
    if length == 0 {
        Some(AuthError::PasswordEmpty)
    } else if length < PASSWORD_MIN_LENGTH {
        Some(AuthError::PasswordTooShort)
    } else {
        None
    }
}

/// Checks the confirmation of a password as a form does.
pub fn confirm_password_error(confirm: &str, password: &str) -> (violation: Option<AuthError>)
    ensures
        violation == confirmation_violation(confirm@, password@),
{
    if confirm.unicode_len() == 0 {
        Some(AuthError::PasswordEmpty)
    } else if !same_text(confirm, password) {
        Some(AuthError::PasswordMismatch)
    } else {
        None
    }
}

/// Whether a login form with these two fields may be submitted.
pub fn is_login_form_valid(username: &str, password: &str) -> (valid: bool)
    ensures
        valid == login_form_valid(username@, password@),
{
    !username.is_empty() && !password.is_empty()
}

/// Whether a registration form with these three fields may be submitted.
pub fn is_form_valid(username: &str, password: &str, confirm: &str) -> (valid: bool)
    ensures
        valid == form_valid(username@, password@, confirm@),
{
    username_error(username).is_none() && password_error(password).is_none()
        && confirm_password_error(confirm, password).is_none()
}

/// Checks a registration on the server, whatever the form did.
pub fn check_registration(username: &str, password: &str, confirm: &str) -> (result: Result<
    (),
    AuthError,
>)
    ensures
        match registration_violation(username@, password@, confirm@) {
            Some(e) => result == Err::<(), AuthError>(e),
            None => result.is_ok(),
        },
{
    if !same_text(password, confirm) {
        return Err(AuthError::PasswordMismatch);
    }
    match password_error(password) {
        Some(e) => Err(e),
        None => match username_error(username) {
            Some(e) => Err(e),
            None => Ok(()),
        },
    }
}

/// A registration form may be submitted exactly when the server's check
/// accepts what it holds.
pub proof fn lemma_form_valid_iff_registration_accepted(
    username: Seq<char>,
    password: Seq<char>,
    confirm: Seq<char>,
)
    ensures
        form_valid(username, password, confirm) <==> registration_violation(
            username,
            password,
            confirm,
        ) is None,
{
}

/// The length rules at their boundary: a password passes with eight
/// characters and no fewer, a username with five and no fewer.
pub proof fn lemma_length_boundaries(username: Seq<char>, password: Seq<char>)
    ensures
        password_violation(password) is None <==> password.len() >= 8,
        username_violation(username) is None <==> username.len() >= 5,
        registration_violation(username, password, password) is None <==> password.len() >= 8
            && username.len() >= 5,
{
}

} // verus!
