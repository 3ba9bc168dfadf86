//! Session-based authentication for a multi-user web application.
//!
//! The crate holds the credential store, the password hasher, the session
//! store, the per-request session manager and the four request-triggered
//! operations (current user, login, logout, registration), each with a
//! contract that Verus proves.

pub mod error;
pub mod password;
pub mod policy;
pub mod user;
pub mod session;
pub mod auth;
pub mod laws;
