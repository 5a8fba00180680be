//! Credential authentication: registration of accounts (email and password)
//! and issuance of signed session tokens on login.
pub mod error;
pub mod handlers;
pub mod hashing;
pub mod models;
pub mod store;
pub mod token;
