use auth_core::errors::{AuthError, PublicError};

#[test]
fn credential_failures_collapse_to_invalid_credentials() {
    assert_eq!(AuthError::CredentialNotFound.public(), PublicError::InvalidCredentials);
    assert_eq!(AuthError::PasswordMismatch.public(), PublicError::InvalidCredentials);
    assert_eq!(AuthError::HashMalformed.public(), PublicError::InvalidCredentials);
}

#[test]
fn token_failures_collapse_to_unauthorized() {
    assert_eq!(AuthError::TokenMalformed.public(), PublicError::Unauthorized);
    assert_eq!(AuthError::TokenBadSignature.public(), PublicError::Unauthorized);
    assert_eq!(AuthError::TokenExpired.public(), PublicError::Unauthorized);
}

#[test]
fn failures_of_the_service_collapse_to_a_server_error() {
    assert_eq!(AuthError::StoreUnavailable.public(), PublicError::ServerError);
    assert_eq!(AuthError::SigningFailure.public(), PublicError::ServerError);
    assert_eq!(AuthError::HashingFailure.public(), PublicError::ServerError);
}

#[test]
fn a_taken_username_is_told_as_such() {
    assert_eq!(AuthError::AlreadyExists.public(), PublicError::AlreadyExists);
}
