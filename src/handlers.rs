//! Registration and authentication.
//!
//! Each operation checks its input before it reaches the store. Against a
//! remote store the caller runs the steps one by one (`prepare_user_record`,
//! the insert, `registration_result`; `validate_credentials`, the lookup,
//! `login_with_record`); against a `UserStore` the composed operations
//! `try_create_user` and `try_login` run them all.
use crate::error::AppError;
use crate::hashing::{hash_password, outcome_is_match, password_matches, verify_password, HASH_LEN, MAX_COST, MIN_COST};
use crate::models::{LoggedInUser, User, UserRecord};
use crate::store::UserStore;
use crate::token::{hs256_token, issue_spec, Claims, JWTKeys};
use vstd::prelude::*;

verus! {

/// Both the email and the password are non-empty.
pub open spec fn credential_valid(email: Seq<char>, password: Seq<char>) -> bool {
    email.len() > 0 && password.len() > 0
}

/// The hash stored for an email, if any.
pub open spec fn stored_hash(store: Map<Seq<char>, Seq<char>>, email: Seq<char>) -> Option<Seq<char>> {
    if store.contains_key(email) {
        Some(store[email])
    } else {
        None
    }
}

/// The outcome of a login with `email` and `password`, given what the store
/// holds for the email and the signing secret. The decision rests on bcrypt's
/// verification alone.
pub open spec fn login_spec(
    email: Seq<char>,
    password: Seq<char>,
    stored: Option<Seq<char>>,
    secret: Seq<char>,
) -> Result<Seq<char>, AppError> {
    if !credential_valid(email, password) {
        Err(AppError::Validation)
    } else {
        match stored {
            None => Err(AppError::NotFound),
            Some(h) => if password_matches(password, h) {
                issue_spec(email, secret)
            } else {
                Err(AppError::InvalidCredential)
            },
        }
    }
}

/// `after` is `before` with one account added for `email`, whose stored hash
/// is a bcrypt hash that the password verifies against.
pub open spec fn registered(
    before: Map<Seq<char>, Seq<char>>,
    after: Map<Seq<char>, Seq<char>>,
    email: Seq<char>,
    password: Seq<char>,
) -> bool {
    &&& after.contains_key(email)
    &&& after == before.insert(email, after[email])
    &&& password_matches(password, after[email])
    &&& after[email].len() == HASH_LEN
}

/// A login reply, seen through the token's view.
pub open spec fn view_login(r: Result<LoggedInUser, AppError>) -> Result<Seq<char>, AppError> {
    match r {
        Ok(u) => Ok(u.token@),
        Err(e) => Err(e),
    }
}

/// What the store answered to an insert.
#[derive(Clone, Copy, Debug, PartialEq, Eq, Structural)]
pub enum InsertOutcome {
    /// The insert ran and added this many rows.
    Inserted(u64),
    /// The store refused the row: its email is taken.
    Duplicate,
    /// The store failed.
    Failed,
}

/// Checks that neither field of the credential is empty.
pub fn validate_credentials(credentials: &User) -> (r: Result<(), AppError>)
    ensures
        r is Ok <==> credential_valid(credentials.email@, credentials.password@),
        r is Err ==> r == Err::<(), AppError>(AppError::Validation),
{
    if credentials.email.as_str().is_empty() || credentials.password.as_str().is_empty() {
        Err(AppError::Validation)
    } else {
        Ok(())
    }
}

/// First step of a registration: validates the credential and hashes the
/// password, giving the record to insert.
pub fn prepare_user_record(credentials: &User, cost: u32) -> (r: Result<UserRecord, AppError>)
    ensures
        !credential_valid(credentials.email@, credentials.password@) ==> r == Err::<UserRecord, AppError>(AppError::Validation),
        credential_valid(credentials.email@, credentials.password@) ==> r is Ok || r == Err::<UserRecord, AppError>(AppError::Hashing),
        !(MIN_COST <= cost <= MAX_COST) && credential_valid(credentials.email@, credentials.password@)
            ==> r == Err::<UserRecord, AppError>(AppError::Hashing),
        r matches Ok(rec) ==> rec.email@ == credentials.email@
            && password_matches(credentials.password@, rec.password_hash@)
            && rec.password_hash@.len() == HASH_LEN,
{
    validate_credentials(credentials)?;
    match hash_password(&credentials.password, cost) {
        Some(h) => Ok(UserRecord { email: credentials.email.clone(), password_hash: h }),
        None => Err(AppError::Hashing),
    }
}

/// Last step of a registration: the reply for what the store answered.
pub fn registration_result(outcome: InsertOutcome) -> (r: Result<(), AppError>)
    ensures
        r == match outcome {
            InsertOutcome::Inserted(n) => if n >= 1 {
                Ok(())
            } else {
                Err(AppError::Conflict)
            },
            InsertOutcome::Duplicate => Err(AppError::Conflict),
            InsertOutcome::Failed => Err(AppError::Store),
        },
{
    match outcome {
        InsertOutcome::Inserted(n) => if n >= 1 {
            Ok(())
        } else {
            Err(AppError::Conflict)
        },
        InsertOutcome::Duplicate => Err(AppError::Conflict),
        InsertOutcome::Failed => Err(AppError::Store),
    }
}

/// The decision of a login once the lookup and the verification are done:
/// only an account whose hash verified the password (`Some(true)`) passes.
pub fn credential_decision(found: bool, verify_outcome: Option<bool>) -> (r: Result<(), AppError>)
    ensures
        r == if !found {
            Err(AppError::NotFound)
        } else if verify_outcome == Some(true) {
            Ok(())
        } else {
            Err(AppError::InvalidCredential)
        },
{
    if !found {
        Err(AppError::NotFound)
    } else if outcome_is_match(verify_outcome) {
        Ok(())
    } else {
        Err(AppError::InvalidCredential)
    }
}

/// A login, given what the store holds for the credential's email.
pub fn login_with_record(credentials: &User, found: Option<UserRecord>, keys: &JWTKeys) -> (r: Result<LoggedInUser, AppError>)
    ensures
        view_login(r) == login_spec(
            credentials.email@,
            credentials.password@,
            match found {
                Some(rec) => Some(rec.password_hash@),
                None => None,
            },
            keys.secret@,
        ),
{
    validate_credentials(credentials)?;
    let user = match found {
        Some(user) => user,
        None => return Err(AppError::NotFound),
    };
    if !verify_password(&credentials.password, &user.password_hash) {
        return Err(AppError::InvalidCredential);
    }
    let claims = Claims::for_email(&credentials.email);
    let token = keys.issue(&claims)?;
    Ok(LoggedInUser { token })
}

/// Registers a credential in the store. An invalid credential and a taken
/// email leave the store as it was.
pub fn try_create_user(store: &mut UserStore, credentials: &User, cost: u32) -> (r: Result<(), AppError>)
    requires
        old(store).wf(),
    ensures
        final(store).wf(),
        !credential_valid(credentials.email@, credentials.password@)
            ==> r == Err::<(), AppError>(AppError::Validation) && final(store)@ == old(store)@,
        credential_valid(credentials.email@, credentials.password@) && old(store)@.contains_key(credentials.email@)
            ==> r == Err::<(), AppError>(AppError::Conflict) && final(store)@ == old(store)@,
        credential_valid(credentials.email@, credentials.password@) && !old(store)@.contains_key(credentials.email@)
            ==> r is Ok || r == Err::<(), AppError>(AppError::Hashing),
        credential_valid(credentials.email@, credentials.password@) && !(MIN_COST <= cost <= MAX_COST)
            ==> r is Err,
        r is Ok ==> registered(old(store)@, final(store)@, credentials.email@, credentials.password@),
        r is Err ==> final(store)@ == old(store)@,
{
    validate_credentials(credentials)?;
    if store.find_user_by_email(&credentials.email).is_some() {
        return Err(AppError::Conflict);
    }
    let record = prepare_user_record(credentials, cost)?;
    let rows = store.insert_user(record);
    registration_result(InsertOutcome::Inserted(rows))
}

/// Authenticates a credential against the store; on success the reply holds
/// the token signed over the claims of the credential's email.
pub fn try_login(store: &UserStore, credentials: &User, keys: &JWTKeys) -> (r: Result<LoggedInUser, AppError>)
    requires
        store.wf(),
    ensures
        view_login(r) == login_spec(
            credentials.email@,
            credentials.password@,
            stored_hash(store@, credentials.email@),
            keys.secret@,
        ),
{
    validate_credentials(credentials)?;
    let found = store.find_user_by_email(&credentials.email);
    login_with_record(credentials, found, keys)
}

/// Registering a credential whose email was free and then logging in with the
/// same credential passes every check: the reply is the token that signing
/// gives for the claims of that email, and fails only if signing fails.
pub proof fn lemma_register_then_login(
    before: Map<Seq<char>, Seq<char>>,
    after: Map<Seq<char>, Seq<char>>,
    email: Seq<char>,
    password: Seq<char>,
    secret: Seq<char>,
)
    requires
        credential_valid(email, password),
        !before.contains_key(email),
        registered(before, after, email, password),
    ensures
        login_spec(email, password, stored_hash(after, email), secret) == issue_spec(email, secret),
        login_spec(email, password, stored_hash(after, email), secret) matches Ok(t)
            ==> hs256_token(email, secret) == Some(t),
{
}

/// A login with a password that does not verify against the stored hash of a
/// registered email fails with a credential error, and no token is issued.
pub proof fn lemma_wrong_password_refused(
    store: Map<Seq<char>, Seq<char>>,
    email: Seq<char>,
    wrong: Seq<char>,
    secret: Seq<char>,
)
    requires
        credential_valid(email, wrong),
        store.contains_key(email),
        !password_matches(wrong, store[email]),
    ensures
        login_spec(email, wrong, stored_hash(store, email), secret) == Err::<Seq<char>, AppError>(AppError::InvalidCredential),
{
}

/// A login with an unregistered email is reported exactly as one with a wrong
/// password: same status, same message.
pub proof fn lemma_unknown_email_indistinguishable(
    store: Map<Seq<char>, Seq<char>>,
    unknown: Seq<char>,
    password: Seq<char>,
    email: Seq<char>,
    wrong: Seq<char>,
    secret: Seq<char>,
)
    requires
        credential_valid(unknown, password),
        !store.contains_key(unknown),
        credential_valid(email, wrong),
        store.contains_key(email),
        !password_matches(wrong, store[email]),
    ensures
        login_spec(unknown, password, stored_hash(store, unknown), secret) is Err,
        login_spec(email, wrong, stored_hash(store, email), secret) is Err,
        login_spec(unknown, password, stored_hash(store, unknown), secret)->Err_0.status_spec()
            == login_spec(email, wrong, stored_hash(store, email), secret)->Err_0.status_spec(),
        login_spec(unknown, password, stored_hash(store, unknown), secret)->Err_0.message_spec()
            == login_spec(email, wrong, stored_hash(store, email), secret)->Err_0.message_spec(),
{
}

/// The stored hash of a registration differs from the plaintext password
/// whenever the password's length is not that of a bcrypt hash.
pub proof fn lemma_stored_hash_not_plaintext(
    before: Map<Seq<char>, Seq<char>>,
    after: Map<Seq<char>, Seq<char>>,
    email: Seq<char>,
    password: Seq<char>,
)
    requires
        registered(before, after, email, password),
        password.len() != HASH_LEN,
    ensures
        after[email] != password,
{
}

} // verus!
