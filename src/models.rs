//! The data that crosses the library's boundary.
use vstd::prelude::*;

verus! {

/// A credential as a client submits it: an email and a plaintext password.
#[derive(Clone, Debug)]
pub struct User {
    pub email: String,
    pub password: String,
}

/// A stored account: the email and the salted one-way hash of its password.
#[derive(Clone, Debug)]
pub struct UserRecord {
    pub email: String,
    pub password_hash: String,
}

/// The reply to a successful login: the signed session token.
#[derive(Clone, Debug)]
pub struct LoggedInUser {
    pub token: String,
}

} // verus!
