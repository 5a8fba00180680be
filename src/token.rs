//! Configuration and token issuance: claims signed with HMAC-SHA256.
use crate::error::AppError;
use vstd::prelude::*;

verus! {

/// The process-wide configuration, built once at startup and passed on.
pub struct EnvOptions {
    pub database_url: String,
    pub auth_secret: String,
}

impl EnvOptions {
    /// Builds the configuration from the two required values; startup must
    /// fail (`None`) when either is absent.
    pub fn new(database_url: Option<String>, auth_secret: Option<String>) -> (r: Option<EnvOptions>)
        ensures
            r is Some <==> (database_url is Some && auth_secret is Some),
            r matches Some(o) ==> o.database_url@ == database_url->Some_0@
                && o.auth_secret@ == auth_secret->Some_0@,
    {
        match (database_url, auth_secret) {
            (Some(database_url), Some(auth_secret)) => Some(EnvOptions { database_url, auth_secret }),
            _ => None,
        }
    }
}

/// The payload of a token: the identity of the user who logged in.
#[derive(Clone, Debug)]
pub struct Claims {
    pub email: String,
}

/// The signing secret, immutable once built.
pub struct JWTKeys {
    pub secret: String,
}

/// `jsonwebtoken::errors::Error`, carried only to be mapped to the library's errors.
#[verifier::external_type_specification]
#[verifier::external_body]
pub struct ExJwtError(jsonwebtoken::errors::Error);

/// What `jsonwebtoken::encode` returns for the claims `{"email": email}` under
/// the default header (HS256) and the key made from the secret's bytes:
/// `Some(token)` for `Ok(token)`, `None` for an error.
pub uninterp spec fn hs256_token(email: Seq<char>, secret: Seq<char>) -> Option<Seq<char>>;

/// Relies on `jsonwebtoken::encode` with `Header::default()` and
/// `EncodingKey::from_secret`: serialising a one-entry map and an HMAC leave
/// the result a function of the email and the secret alone.
#[verifier::external_body]
fn jwt_encode(claims: &Claims, secret: &str) -> (r: Result<String, jsonwebtoken::errors::Error>)
    ensures
        match r {
            Ok(t) => hs256_token(claims.email@, secret@) == Some(t@),
            Err(_) => hs256_token(claims.email@, secret@) is None,
        },
{
    let payload = std::collections::BTreeMap::from([("email", claims.email.as_str())]);
    let key = jsonwebtoken::EncodingKey::from_secret(secret.as_bytes());
    jsonwebtoken::encode(&jsonwebtoken::Header::default(), &payload, &key)
}

/// The outcome of signing the claims of `email` with `secret`.
pub open spec fn issue_spec(email: Seq<char>, secret: Seq<char>) -> Result<Seq<char>, AppError> {
    match hs256_token(email, secret) {
        Some(t) => Ok(t),
        None => Err(AppError::Signing),
    }
}

/// A result that carries a string, seen through the string's view.
pub open spec fn view_result(r: Result<String, AppError>) -> Result<Seq<char>, AppError> {
    match r {
        Ok(s) => Ok(s@),
        Err(e) => Err(e),
    }
}

impl Claims {
    /// The claims for a user who has just proved their credential.
    pub fn for_email(email: &String) -> (r: Claims)
        ensures
            r.email@ == email@,
    {
        Claims { email: email.clone() }
    }
}

impl JWTKeys {
    /// Takes the signing secret from the configuration.
    pub fn new(options: &EnvOptions) -> (r: JWTKeys)
        ensures
            r.secret@ == options.auth_secret@,
    {
        JWTKeys { secret: options.auth_secret.clone() }
    }

    /// Signs the claims into a token.
    pub fn issue(&self, claims: &Claims) -> (r: Result<String, AppError>)
        ensures
            view_result(r) == issue_spec(claims.email@, self.secret@),
    {
        match jwt_encode(claims, self.secret.as_str()) {
            Ok(t) => Ok(t),
            Err(_) => Err(AppError::Signing),
        }
    }
}

} // verus!
