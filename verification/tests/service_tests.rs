use auth_core::errors::{AuthError, PublicError};
use auth_core::password::{hash_password, verify_password};
use auth_core::service::{
    judge_password, login_token, register_user, verify_user, AuthService,
};
use auth_core::store::{Credential, Lookup};
use auth_core::token::{validate_jwt, TOKEN_TTL};

const SECRET: &[u8] = b"supersecretkey";

const HASH_OF_STAPLER: &str = "$2b$04$EGdrhbKUv8Oc9vGiXX0HQOxSg445d458Muh7DAHskb6QbtCvdxcie";

fn found(username: &str, password_hash: &str) -> Lookup {
    Lookup::Found(Credential {
        username: username.to_owned(),
        password_hash: password_hash.to_owned(),
    })
}

#[test]
fn the_answer_of_the_hasher_decides_on_the_identity() {
    assert_eq!(judge_password(Ok(true), "bob"), Ok("bob".to_owned()));
    assert_eq!(judge_password(Ok(false), "bob"), Err(AuthError::PasswordMismatch));
    assert_eq!(
        judge_password(Err(AuthError::HashMalformed), "bob"),
        Err(AuthError::HashMalformed)
    );
}

#[test]
fn a_user_is_verified_against_the_credential_that_was_found() {
    let lookup = found("carol", HASH_OF_STAPLER);
    assert_eq!(
        verify_user(&lookup, "carol", "correctbatteryhorsestapler"),
        Ok("carol".to_owned())
    );
    assert_eq!(verify_user(&lookup, "carol", "wrong"), Err(AuthError::PasswordMismatch));
    assert_eq!(verify_user(&lookup, "carol", ""), Err(AuthError::PasswordMismatch));
}

#[test]
fn a_user_without_credential_is_not_found() {
    assert_eq!(
        verify_user(&Lookup::Absent, "nobody", "anything"),
        Err(AuthError::CredentialNotFound)
    );
}

#[test]
fn a_store_that_does_not_answer_is_reported() {
    assert_eq!(
        verify_user(&Lookup::Unavailable, "carol", "correctbatteryhorsestapler"),
        Err(AuthError::StoreUnavailable)
    );
    assert_eq!(
        login_token(&Lookup::Unavailable, "carol", "pw", SECRET, 0),
        Err(AuthError::StoreUnavailable)
    );
}

#[test]
fn a_stored_hash_that_is_none_is_reported() {
    let lookup = found("carol", "plaintext-by-mistake");
    assert_eq!(
        verify_user(&lookup, "carol", "plaintext-by-mistake"),
        Err(AuthError::HashMalformed)
    );
}

#[test]
fn the_credential_of_a_new_user_carries_a_hash_of_the_password() {
    let credential = register_user("dave", "pw-of-dave").unwrap();
    assert_eq!(credential.username, "dave");
    assert_ne!(credential.password_hash, "pw-of-dave");
    assert_eq!(verify_password("pw-of-dave", &credential.password_hash), Ok(true));
    assert_eq!(verify_password("pw-of-eve", &credential.password_hash), Ok(false));
}

#[test]
fn signing_in_yields_a_token_for_the_user() {
    let hash = hash_password("s3cret").unwrap();
    let token = login_token(&found("erin", &hash), "erin", "s3cret", SECRET, 500).unwrap();
    let claims = validate_jwt(&token, SECRET, 500).unwrap();
    assert_eq!(claims.sub, "erin");
    assert_eq!(claims.exp, 500 + TOKEN_TTL);
}

#[test]
fn signing_in_is_refused_before_any_token_is_signed() {
    let hash = hash_password("s3cret").unwrap();
    // the clock leaves no room for an expiry, and still the password is looked at first
    assert_eq!(
        login_token(&found("erin", &hash), "erin", "wrong", SECRET, u64::MAX),
        Err(AuthError::PasswordMismatch)
    );
    assert_eq!(
        login_token(&found("erin", &hash), "erin", "s3cret", SECRET, u64::MAX),
        Err(AuthError::SigningFailure)
    );
}

#[test]
fn login_of_an_unknown_user_is_invalid_credentials() {
    let service = AuthService::new(SECRET.to_vec());
    assert_eq!(service.login("nobody", "anything", 1000), Err(PublicError::InvalidCredentials));
}

#[test]
fn login_with_a_wrong_password_is_invalid_credentials() {
    let mut service = AuthService::new(SECRET.to_vec());
    assert_eq!(service.register("alice", "pw"), Ok(()));
    assert_eq!(service.login("alice", "wrong", 1000), Err(PublicError::InvalidCredentials));
    assert_eq!(service.login("alice", "", 1000), Err(PublicError::InvalidCredentials));
    assert_eq!(
        service.login("alice", "wrong", 1000),
        service.login("nobody", "anything", 1000)
    );
}

#[test]
fn a_second_registration_under_a_username_is_refused() {
    let mut service = AuthService::new(SECRET.to_vec());
    assert_eq!(service.register("alice", "pw"), Ok(()));
    assert_eq!(service.register("alice", "other"), Err(PublicError::AlreadyExists));
    // the hash stored first is the one that stays
    assert!(service.login("alice", "pw", 1000).is_ok());
    assert_eq!(service.login("alice", "other", 1000), Err(PublicError::InvalidCredentials));
    // and the same password again is refused as well
    assert_eq!(service.register("alice", "pw"), Err(PublicError::AlreadyExists));
}

#[test]
fn register_login_authenticate_end_to_end() {
    let mut service = AuthService::new(SECRET.to_vec());
    assert_eq!(service.register("bob", "secret123"), Ok(()));
    let token = service.login("bob", "secret123", 1000).unwrap();
    assert_eq!(service.authenticate(&token, 1000), Ok("bob".to_owned()));
    assert_eq!(service.authenticate(&token, 1000 + TOKEN_TTL - 1), Ok("bob".to_owned()));
    assert_eq!(service.authenticate(&token, 1000 + TOKEN_TTL), Err(PublicError::Unauthorized));
    let reversed: String = token.chars().rev().collect();
    assert_eq!(service.authenticate(&reversed, 1000), Err(PublicError::Unauthorized));
    let mut corrupted = token.clone();
    corrupted.insert(token.len() / 2, '!');
    assert_eq!(service.authenticate(&corrupted, 1000), Err(PublicError::Unauthorized));
}

#[test]
fn a_token_is_bound_to_the_secret_of_its_service() {
    let mut ours = AuthService::new(SECRET.to_vec());
    let theirs = AuthService::new(b"another secret".to_vec());
    assert_eq!(ours.register("bob", "secret123"), Ok(()));
    let token = ours.login("bob", "secret123", 1000).unwrap();
    assert_eq!(ours.authenticate(&token, 1000), Ok("bob".to_owned()));
    assert_eq!(theirs.authenticate(&token, 1000), Err(PublicError::Unauthorized));
}

#[test]
fn users_do_not_share_passwords() {
    let mut service = AuthService::new(SECRET.to_vec());
    assert_eq!(service.register("alice", "pw-a"), Ok(()));
    assert_eq!(service.register("bob", "pw-b"), Ok(()));
    assert!(service.login("alice", "pw-a", 0).is_ok());
    assert!(service.login("bob", "pw-b", 0).is_ok());
    assert_eq!(service.login("alice", "pw-b", 0), Err(PublicError::InvalidCredentials));
    assert_eq!(service.login("bob", "pw-a", 0), Err(PublicError::InvalidCredentials));
}

#[test]
fn a_service_whose_clock_is_at_its_end_fails_as_a_server() {
    let mut service = AuthService::new(SECRET.to_vec());
    assert_eq!(service.register("alice", "pw"), Ok(()));
    assert_eq!(service.login("alice", "pw", u64::MAX), Err(PublicError::ServerError));
}
