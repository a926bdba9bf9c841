//! The kinds of failure, as recorded inside the service and as shown outside.

use vstd::prelude::*;

verus! {

/// Why an operation failed, in the detail that diagnostics want.
#[derive(Clone, Copy, Debug, PartialEq, Eq, Structural)]
pub enum AuthError {
    /// No credential is stored under the username.
    CredentialNotFound,
    /// The password is not the one the stored hash was made from.
    PasswordMismatch,
    /// The stored hash is not a hash the hasher can read.
    HashMalformed,
    /// The username is already taken.
    AlreadyExists,
    /// The token cannot be read as a signed set of claims.
    TokenMalformed,
    /// The token's signature is not the one the secret gives.
    TokenBadSignature,
    /// The token is well signed and its expiry has been reached.
    TokenExpired,
    /// The persistence layer did not answer.
    StoreUnavailable,
    /// No token could be signed.
    SigningFailure,
    /// No hash could be made of the password.
    HashingFailure,
}

/// What a caller outside the service is told about a failure.
#[derive(Clone, Copy, Debug, PartialEq, Eq, Structural)]
pub enum PublicError {
    /// The username or the password is wrong; which one is not said.
    InvalidCredentials,
    /// The token is not accepted; why is not said.
    Unauthorized,
    /// The username is already taken.
    AlreadyExists,
    /// The service itself failed.
    ServerError,
}

impl AuthError {
    /// The outward kind that stands for this failure.
    pub open spec fn spec_public(self) -> PublicError {
        match self {
            AuthError::CredentialNotFound | AuthError::PasswordMismatch | AuthError::HashMalformed =>
                PublicError::InvalidCredentials,
            AuthError::TokenMalformed | AuthError::TokenBadSignature | AuthError::TokenExpired =>
                PublicError::Unauthorized,
            AuthError::AlreadyExists => PublicError::AlreadyExists,
            AuthError::StoreUnavailable | AuthError::SigningFailure | AuthError::HashingFailure =>
                PublicError::ServerError,
        }
    }

    /// True of the three ways in which a token can be refused.
    pub open spec fn is_token_failure(self) -> bool {
        self == AuthError::TokenMalformed || self == AuthError::TokenBadSignature || self
            == AuthError::TokenExpired
    }

    /// True of the ways in which a sign-in can be refused for the credentials' sake.
    pub open spec fn is_credential_failure(self) -> bool {
        self == AuthError::CredentialNotFound || self == AuthError::PasswordMismatch || self
            == AuthError::HashMalformed
    }

    /// Collapses the failure to the kind that may leave the service.
    #[verifier::when_used_as_spec(spec_public)]
    pub fn public(self) -> (out: PublicError)
        ensures
            out == self.spec_public(),
    {
        match self {
            AuthError::CredentialNotFound => PublicError::InvalidCredentials,
            AuthError::PasswordMismatch => PublicError::InvalidCredentials,
            AuthError::HashMalformed => PublicError::InvalidCredentials,
            AuthError::TokenMalformed => PublicError::Unauthorized,
            AuthError::TokenBadSignature => PublicError::Unauthorized,
            AuthError::TokenExpired => PublicError::Unauthorized,
            AuthError::AlreadyExists => PublicError::AlreadyExists,
            AuthError::StoreUnavailable => PublicError::ServerError,
            AuthError::SigningFailure => PublicError::ServerError,
            AuthError::HashingFailure => PublicError::ServerError,
        }
    }
}

/// A caller outside cannot tell an unknown username from a wrong password,
/// nor one refused token from another: failures of one family collapse to
/// one outward kind.
pub proof fn law_failures_of_a_family_look_alike(a: AuthError, b: AuthError)
    ensures
        a.is_credential_failure() && b.is_credential_failure() ==> a.spec_public()
            == b.spec_public(),
        a.is_token_failure() && b.is_token_failure() ==> a.spec_public() == b.spec_public(),
        a.is_credential_failure() <==> a.spec_public() == PublicError::InvalidCredentials,
        a.is_token_failure() <==> a.spec_public() == PublicError::Unauthorized,
{
}

} // verus!
