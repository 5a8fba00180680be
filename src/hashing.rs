//! Password hashing and verification with bcrypt.
use vstd::prelude::*;

verus! {

/// The least and the greatest work factor that bcrypt accepts.
pub const MIN_COST: u32 = 4;
pub const MAX_COST: u32 = 31;

/// The work factor used for stored passwords.
pub const DEFAULT_COST: u32 = 12;

/// Length of a hash in bcrypt's modular crypt format (`$2b$`, cost, salt, digest).
pub const HASH_LEN: usize = 60;

/// `bcrypt::BcryptError`, carried only to be mapped to the library's errors.
#[verifier::external_type_specification]
#[verifier::external_body]
pub struct ExBcryptError(bcrypt::BcryptError);

/// What `bcrypt::verify` returns for a password and a stored hash: `Some(b)`
/// for `Ok(b)`, `None` when the hash cannot be parsed or used.
pub uninterp spec fn bcrypt_verify_outcome(password: Seq<char>, hash: Seq<char>) -> Option<bool>;

/// Relies on `bcrypt::hash`: with a cost in 4..=31 it salts from the OS's
/// randomness and formats `$2b$`, two cost digits, 22 salt and 31 digest
/// characters; a cost outside that range is an error. `bcrypt::verify` re-hashes
/// the password with the salt and cost read back from that string, so it
/// accepts the password it was made from.
#[verifier::external_body]
fn bcrypt_hash(password: &str, cost: u32) -> (r: Result<String, bcrypt::BcryptError>)
    ensures
        r is Ok ==> MIN_COST <= cost <= MAX_COST,
        r matches Ok(h) ==> h@.len() == HASH_LEN,
        r matches Ok(h) ==> bcrypt_verify_outcome(password@, h@) == Some(true),
{
    bcrypt::hash(password, cost)
}

/// Relies on `bcrypt::verify`: its result is a function of the password and
/// the hash alone.
#[verifier::external_body]
fn bcrypt_verify(password: &str, hash: &str) -> (r: Result<bool, bcrypt::BcryptError>)
    ensures
        match r {
            Ok(b) => bcrypt_verify_outcome(password@, hash@) == Some(b),
            Err(_) => bcrypt_verify_outcome(password@, hash@) is None,
        },
{
    bcrypt::verify(password, hash)
}

/// Hashes a password with a fresh random salt. Fails (`None`) when the cost is
/// out of range, or when the OS gives no randomness.
pub fn hash_password(password: &String, cost: u32) -> (r: Option<String>)
    ensures
        r is Some ==> MIN_COST <= cost <= MAX_COST,
        r matches Some(h) ==> h@.len() == HASH_LEN,
        r matches Some(h) ==> password_matches(password@, h@),
{
    match bcrypt_hash(password.as_str(), cost) {
        Ok(h) => Some(h),
        Err(_) => None,
    }
}

/// A password matches a stored hash exactly when bcrypt's verification
/// succeeds and says so; a verification that fails counts as no match.
pub open spec fn password_matches(password: Seq<char>, hash: Seq<char>) -> bool {
    bcrypt_verify_outcome(password, hash) == Some(true)
}

/// The decision on a verification outcome: only `Some(true)` is a match.
pub fn outcome_is_match(outcome: Option<bool>) -> (r: bool)
    ensures
        r == (outcome == Some(true)),
{
    match outcome {
        Some(b) => b,
        None => false,
    }
}

/// Checks a password against a stored hash, by bcrypt's verification alone.
pub fn verify_password(password: &String, hash: &String) -> (r: bool)
    ensures
        r == password_matches(password@, hash@),
{
    let outcome = match bcrypt_verify(password.as_str(), hash.as_str()) {
        Ok(b) => Some(b),
        Err(_) => None,
    };
    outcome_is_match(outcome)
}

} // verus!
