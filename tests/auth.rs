use std::collections::BTreeMap;

use auth_rs::error::{AppError, PublicMessage};
use auth_rs::handlers::{
    credential_decision, login_with_record, prepare_user_record, registration_result, try_create_user, try_login,
    validate_credentials, InsertOutcome,
};
use auth_rs::hashing::{hash_password, outcome_is_match, verify_password, DEFAULT_COST, HASH_LEN, MIN_COST};
use auth_rs::models::{User, UserRecord};
use auth_rs::store::UserStore;
use auth_rs::token::{Claims, EnvOptions, JWTKeys};

fn user(email: &str, password: &str) -> User {
    User { email: email.to_string(), password: password.to_string() }
}

fn keys(secret: &str) -> JWTKeys {
    let options = EnvOptions::new(Some("postgres://localhost/auth".to_string()), Some(secret.to_string())).unwrap();
    JWTKeys::new(&options)
}

fn decode_email(token: &str, secret: &str) -> String {
    let mut validation = jsonwebtoken::Validation::new(jsonwebtoken::Algorithm::HS256);
    validation.required_spec_claims.clear();
    validation.validate_exp = false;
    let data = jsonwebtoken::decode::<BTreeMap<String, String>>(
        token,
        &jsonwebtoken::DecodingKey::from_secret(secret.as_bytes()),
        &validation,
    )
    .unwrap();
    assert_eq!(data.claims.len(), 1);
    data.claims["email"].clone()
}

#[test]
fn full_scenario() {
    let mut store = UserStore::new();
    let k = keys("s3cret");
    assert_eq!(try_create_user(&mut store, &user("a@x.com", "hunter2"), MIN_COST), Ok(()));
    let logged = try_login(&store, &user("a@x.com", "hunter2"), &k).unwrap();
    assert_eq!(decode_email(&logged.token, "s3cret"), "a@x.com");
    let wrong = try_login(&store, &user("a@x.com", "wrong"), &k).unwrap_err();
    assert_eq!(wrong, AppError::InvalidCredential);
    let nobody = try_login(&store, &user("nobody@x.com", "x"), &k).unwrap_err();
    assert_eq!(nobody, AppError::NotFound);
    assert_eq!(nobody.status_code(), wrong.status_code());
    assert_eq!(nobody.public_message(), wrong.public_message());
    assert_eq!(try_create_user(&mut store, &user("a@x.com", "anything"), MIN_COST), Err(AppError::Conflict));
    assert_eq!(store.len(), 1);
    let still = try_login(&store, &user("a@x.com", "hunter2"), &k).unwrap();
    assert_eq!(decode_email(&still.token, "s3cret"), "a@x.com");
}

#[test]
fn register_then_login_with_default_cost() {
    let mut store = UserStore::new();
    assert_eq!(try_create_user(&mut store, &user("b@y.org", "pa55"), DEFAULT_COST), Ok(()));
    let logged = try_login(&store, &user("b@y.org", "pa55"), &keys("k")).unwrap();
    assert_eq!(decode_email(&logged.token, "k"), "b@y.org");
}

#[test]
fn token_is_signed_with_the_configured_secret() {
    let mut store = UserStore::new();
    try_create_user(&mut store, &user("c@z.net", "pw"), MIN_COST).unwrap();
    let t1 = try_login(&store, &user("c@z.net", "pw"), &keys("one")).unwrap().token;
    let t2 = try_login(&store, &user("c@z.net", "pw"), &keys("two")).unwrap().token;
    assert_ne!(t1, t2);
    assert_eq!(t1.split('.').count(), 3);
    let again = try_login(&store, &user("c@z.net", "pw"), &keys("one")).unwrap().token;
    assert_eq!(t1, again);
}

#[test]
fn empty_fields_fail_validation_and_leave_store_alone() {
    let mut store = UserStore::new();
    assert_eq!(try_create_user(&mut store, &user("", "pw"), MIN_COST), Err(AppError::Validation));
    assert_eq!(try_create_user(&mut store, &user("e@x.com", ""), MIN_COST), Err(AppError::Validation));
    assert_eq!(store.len(), 0);
    try_create_user(&mut store, &user("e@x.com", "pw"), MIN_COST).unwrap();
    let k = keys("s");
    assert_eq!(try_login(&store, &user("", "pw"), &k).unwrap_err(), AppError::Validation);
    assert_eq!(try_login(&store, &user("e@x.com", ""), &k).unwrap_err(), AppError::Validation);
    assert_eq!(validate_credentials(&user("", "")), Err(AppError::Validation));
    assert_eq!(validate_credentials(&user("a", "b")), Ok(()));
    assert!(matches!(prepare_user_record(&user("", "pw"), MIN_COST), Err(AppError::Validation)));
}

#[test]
fn conflict_keeps_the_existing_record() {
    let mut store = UserStore::new();
    try_create_user(&mut store, &user("d@x.com", "first"), MIN_COST).unwrap();
    let before = store.find_user_by_email(&"d@x.com".to_string()).unwrap();
    assert_eq!(try_create_user(&mut store, &user("d@x.com", "second"), MIN_COST), Err(AppError::Conflict));
    let after = store.find_user_by_email(&"d@x.com".to_string()).unwrap();
    assert_eq!(before.password_hash, after.password_hash);
    assert!(verify_password(&"first".to_string(), &after.password_hash));
    assert!(!verify_password(&"second".to_string(), &after.password_hash));
}

#[test]
fn hashes_are_salted_and_not_plaintext() {
    let mut store = UserStore::new();
    try_create_user(&mut store, &user("p@x.com", "same"), MIN_COST).unwrap();
    try_create_user(&mut store, &user("q@x.com", "same"), MIN_COST).unwrap();
    let p = store.find_user_by_email(&"p@x.com".to_string()).unwrap();
    let q = store.find_user_by_email(&"q@x.com".to_string()).unwrap();
    assert_ne!(p.password_hash, q.password_hash);
    assert_ne!(p.password_hash, "same");
    assert_eq!(p.password_hash.len(), HASH_LEN);
    assert!(p.password_hash.starts_with("$2b$04$"));
}

#[test]
fn hashing_rejects_cost_out_of_range() {
    assert_eq!(hash_password(&"pw".to_string(), 3), None);
    assert_eq!(hash_password(&"pw".to_string(), 32), None);
    let mut store = UserStore::new();
    assert_eq!(try_create_user(&mut store, &user("h@x.com", "pw"), 3), Err(AppError::Hashing));
    assert_eq!(store.len(), 0);
}

#[test]
fn malformed_hash_is_an_authentication_failure() {
    assert!(!verify_password(&"plain".to_string(), &"plain".to_string()));
    let record = UserRecord { email: "m@x.com".to_string(), password_hash: "plain".to_string() };
    let r = login_with_record(&user("m@x.com", "plain"), Some(record), &keys("s"));
    assert_eq!(r.unwrap_err(), AppError::InvalidCredential);
}

#[test]
fn login_with_record_steps() {
    let record = prepare_user_record(&user("r@x.com", "pw"), MIN_COST).unwrap();
    assert_eq!(record.email, "r@x.com");
    let k = keys("sec");
    let ok = login_with_record(&user("r@x.com", "pw"), Some(record.clone()), &k).unwrap();
    assert_eq!(decode_email(&ok.token, "sec"), "r@x.com");
    assert_eq!(login_with_record(&user("r@x.com", "px"), Some(record), &k).unwrap_err(), AppError::InvalidCredential);
    assert_eq!(login_with_record(&user("r@x.com", "pw"), None, &k).unwrap_err(), AppError::NotFound);
}

#[test]
fn registration_outcomes() {
    assert_eq!(registration_result(InsertOutcome::Inserted(1)), Ok(()));
    assert_eq!(registration_result(InsertOutcome::Inserted(0)), Err(AppError::Conflict));
    assert_eq!(registration_result(InsertOutcome::Duplicate), Err(AppError::Conflict));
    assert_eq!(registration_result(InsertOutcome::Failed), Err(AppError::Store));
}

#[test]
fn credential_decisions() {
    assert_eq!(credential_decision(false, Some(true)), Err(AppError::NotFound));
    assert_eq!(credential_decision(true, Some(true)), Ok(()));
    assert_eq!(credential_decision(true, Some(false)), Err(AppError::InvalidCredential));
    assert_eq!(credential_decision(true, None), Err(AppError::InvalidCredential));
    assert!(outcome_is_match(Some(true)));
    assert!(!outcome_is_match(Some(false)));
    assert!(!outcome_is_match(None));
}

#[test]
fn error_status_and_messages() {
    assert_eq!(AppError::Validation.status_code(), 400);
    assert_eq!(AppError::Conflict.status_code(), 409);
    assert_eq!(AppError::NotFound.status_code(), 401);
    assert_eq!(AppError::InvalidCredential.status_code(), 401);
    assert_eq!(AppError::Store.status_code(), 500);
    assert_eq!(AppError::Hashing.status_code(), 500);
    assert_eq!(AppError::Signing.status_code(), 500);
    assert_eq!(AppError::NotFound.public_message(), PublicMessage::InvalidCredentials);
    assert_eq!(AppError::Store.public_message().text(), "internal server error");
    assert_eq!(AppError::Validation.public_message().text(), "invalid email or password");
    assert_eq!(AppError::Conflict.public_message().text(), "account already exists");
    assert_eq!(AppError::InvalidCredential.public_message().text(), "invalid credentials");
}

#[test]
fn configuration_requires_both_values() {
    assert!(EnvOptions::new(None, Some("s".to_string())).is_none());
    assert!(EnvOptions::new(Some("db".to_string()), None).is_none());
    let o = EnvOptions::new(Some("db".to_string()), Some("s".to_string())).unwrap();
    assert_eq!(o.database_url, "db");
    assert_eq!(o.auth_secret, "s");
    assert_eq!(JWTKeys::new(&o).secret, "s");
}

#[test]
fn issue_signs_the_claims() {
    let k = keys("abc");
    let t = k.issue(&Claims::for_email(&"z@x.com".to_string())).unwrap();
    assert_eq!(decode_email(&t, "abc"), "z@x.com");
}

#[test]
fn store_lookup_and_insert() {
    let mut store = UserStore::new();
    assert!(store.find_user_by_email(&"x".to_string()).is_none());
    let rec = UserRecord { email: "x".to_string(), password_hash: "h1".to_string() };
    assert_eq!(store.insert_user(rec), 1);
    let dup = UserRecord { email: "x".to_string(), password_hash: "h2".to_string() };
    assert_eq!(store.insert_user(dup), 0);
    assert_eq!(store.find_user_by_email(&"x".to_string()).unwrap().password_hash, "h1");
    assert_eq!(store.len(), 1);
}
