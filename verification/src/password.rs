//! The password hasher: salted, adaptive, one-way hashing by bcrypt, and
//! verification of a plaintext against a stored hash.

use crate::error::AuthError;
use vstd::prelude::*;

verus! {

/// The cost that hashes are made with unless the caller picks another.
pub const DEFAULT_COST: u32 = 12;

/// Declares `bcrypt::BcryptError`, the error of `bcrypt::hash` and
/// `bcrypt::verify`, as a type that is carried and never looked into.
#[verifier::external_type_specification]
#[verifier::external_body]
pub struct ExBcryptError(bcrypt::BcryptError);

/// The least cost that the hasher accepts.
pub const MIN_COST: u32 = 4;

/// The greatest cost that the hasher accepts.
pub const MAX_COST: u32 = 31;

/// Whether the hasher accepts this cost.
pub open spec fn cost_allowed(cost: u32) -> bool {
    MIN_COST <= cost <= MAX_COST
}

/// What `bcrypt::verify` returns for a plaintext and a stored hash: `Some` of
/// its verdict where it returns `Ok`, `None` where it returns an error (a
/// stored hash that is malformed). It depends on the two strings alone.
pub uninterp spec fn verify_outcome(plaintext: Seq<char>, hashed: Seq<char>) -> Option<bool>;

/// Whether `plaintext` verifies against `hashed`. A malformed hash matches
/// nothing.
pub open spec fn password_matches(plaintext: Seq<char>, hashed: Seq<char>) -> bool {
    verify_outcome(plaintext, hashed) == Some(true)
}

/// Calls `bcrypt::verify`. Trusted: the result, with the error dropped, is
/// `verify_outcome` of the two strings. The call recomputes the hash from the
/// salt and cost inside `hashed` and compares in constant time; it does not
/// panic on any input.
#[verifier::external_body]
fn bcrypt_verify(plaintext: &str, hashed: &str) -> (outcome: Result<bool, bcrypt::BcryptError>)
    ensures
        verify_outcome(plaintext@, hashed@) == (match outcome {
            Ok(verdict) => Some(verdict),
            Err(_) => None::<bool>,
        }),
{
    bcrypt::verify(plaintext, hashed)
}

/// Calls `bcrypt::hash`, which draws a fresh random salt. Trusted: a hash that
/// comes back verifies against the plaintext it was made from, and a cost
/// outside the range that bcrypt accepts, 4 to 31, gives an error. Nothing is
/// claimed of when the call succeeds, nor of the hash's text.
#[verifier::external_body]
fn bcrypt_hash(plaintext: &str, cost: u32) -> (outcome: Result<String, bcrypt::BcryptError>)
    ensures
        outcome matches Ok(hashed) ==> verify_outcome(plaintext@, hashed@) == Some(true),
        !cost_allowed(cost) ==> outcome is Err,
{
    bcrypt::hash(plaintext, cost)
}

/// The verdict that a verification outcome stands for: only `Ok(true)`
/// accepts. An error from the hasher is a failed verification, not an error
/// of its own.
pub fn verdict_of(outcome: Result<bool, bcrypt::BcryptError>) -> (accepted: bool)
    ensures
        accepted == (outcome == Ok::<bool, bcrypt::BcryptError>(true)),
{
    match outcome {
        Ok(verdict) => verdict,
        Err(_) => false,
    }
}

/// The result of hashing as this crate reports it: the hash, or
/// `HashingFailed` whatever the hasher's own error was, so that no detail of
/// the input reaches a message.
pub fn hashed_or_failed(outcome: Result<String, bcrypt::BcryptError>) -> (result: Result<
    String,
    AuthError,
>)
    ensures
        match outcome {
            Ok(hashed) => result == Ok::<String, AuthError>(hashed),
            Err(_) => result == Err::<String, AuthError>(AuthError::HashingFailed),
        },
{
    match outcome {
        Ok(hashed) => Ok(hashed),
        Err(_) => Err(AuthError::HashingFailed),
    }
}

/// Hashes `plaintext` with a fresh salt at the given cost. Two calls on one
/// plaintext give different hashes; a hash is only ever checked with
/// [`verify_password`]. A cost that the hasher does not accept fails, and so
/// may any call: the salt comes from the system.
pub fn hash_password(plaintext: &str, cost: u32) -> (result: Result<String, AuthError>)
    ensures
        match result {
            Ok(hashed) => cost_allowed(cost) && password_matches(plaintext@, hashed@),
            Err(e) => e == AuthError::HashingFailed,
        },
{
    hashed_or_failed(bcrypt_hash(plaintext, cost))
}

/// Whether `plaintext` verifies against the stored hash. A malformed hash is a
/// failed verification.
pub fn verify_password(plaintext: &str, hashed: &str) -> (accepted: bool)
    ensures
        accepted == password_matches(plaintext@, hashed@),
{
    verdict_of(bcrypt_verify(plaintext, hashed))
}

} // verus!
