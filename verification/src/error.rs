//! The failures that the authentication operations report.

use vstd::prelude::*;
use vstd::string::StringExecFns;

verus! {

/// Why an operation was refused.
#[derive(Clone, Copy, Debug, PartialEq, Eq, Hash)]
pub enum AuthError {
    /// The request carries no session to work on.
    SessionUnavailable,
    /// No user has the given username.
    UserNotFound,
    /// The user exists and the password does not verify against the stored hash.
    WrongPassword,
    /// Password and confirmation differ.
    PasswordMismatch,
    /// The username is taken.
    DuplicateUsername,
    /// The username is empty.
    UsernameEmpty,
    /// The username is shorter than the minimum.
    UsernameTooShort,
    /// The password is empty.
    PasswordEmpty,
    /// The password is shorter than the minimum.
    PasswordTooShort,
    /// The hasher could not produce a hash.
    HashingFailed,
    /// The credential store has no identifier left to assign.
    StoreFull,
}

impl AuthError {
    /// The text of the message shown for this error.
    pub open spec fn message_text(self) -> Seq<char> {
        match self {
            AuthError::SessionUnavailable => "Auth session missing."@,
            AuthError::UserNotFound => "User does not exist"@,
            AuthError::WrongPassword => "Password is incorrect"@,
            AuthError::PasswordMismatch => "Passwords do not match"@,
            AuthError::DuplicateUsername => "Username is already taken"@,
            AuthError::UsernameEmpty => "Username cannot be empty"@,
            AuthError::UsernameTooShort => "Username must be at least 5 characters long"@,
            AuthError::PasswordEmpty => "Password cannot be empty"@,
            AuthError::PasswordTooShort => "Password must be at least 8 characters long"@,
            AuthError::HashingFailed => "Password could not be hashed"@,
            AuthError::StoreFull => "User could not be stored"@,
        }
    }

    /// The message shown for this error. It never holds a password.
    pub fn message(&self) -> (text: String)
        ensures
            text@ == self.message_text(),
    {
        match self {
            AuthError::SessionUnavailable => String::from_str("Auth session missing."),
            AuthError::UserNotFound => String::from_str("User does not exist"),
            AuthError::WrongPassword => String::from_str("Password is incorrect"),
            AuthError::PasswordMismatch => String::from_str("Passwords do not match"),
            AuthError::DuplicateUsername => String::from_str("Username is already taken"),
            AuthError::UsernameEmpty => String::from_str("Username cannot be empty"),
            AuthError::UsernameTooShort => String::from_str(
                "Username must be at least 5 characters long",
            ),
            AuthError::PasswordEmpty => String::from_str("Password cannot be empty"),
            AuthError::PasswordTooShort => String::from_str(
                "Password must be at least 8 characters long",
            ),
            AuthError::HashingFailed => String::from_str("Password could not be hashed"),
            AuthError::StoreFull => String::from_str("User could not be stored"),
        }
    }
}

} // verus!
