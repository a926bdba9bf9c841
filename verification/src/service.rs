//! The three operations that the service offers: registering a user,
//! signing a user in, and naming the bearer of a token.
//!
//! Each comes in two forms. The free functions decide on what the caller's
//! persistence layer answered and report failures in full detail.
//! `AuthService` binds a signing secret to a `CredentialStore` and reports
//! to its callers only what may leave the service.

use vstd::prelude::*;
use crate::errors::{AuthError, PublicError};
use crate::models::result_view;
use crate::password::{hash_password, verify_outcome, verify_password};
use crate::store::{lookup_in, Credential, CredentialStore, CredentialView, Lookup, LookupView};
use crate::token::{
    authenticate,
    authenticate_outcome,
    decoded_token,
    generate_jwt,
    issue_outcome,
    TOKEN_TTL,
};

verus! {

/// What the answer of a password check means for the user who signs in.
pub open spec fn password_verdict(answer: Result<bool, AuthError>, username: Seq<char>) -> Result<
    Seq<char>,
    AuthError,
> {
    match answer {
        Ok(true) => Ok(username),
        Ok(false) => Err(AuthError::PasswordMismatch),
        Err(e) => Err(e),
    }
}

/// Turns the answer of a password check into the identity that has been
/// verified, or into the reason why none has.
pub fn judge_password(answer: Result<bool, AuthError>, username: &str) -> (r: Result<
    String,
    AuthError,
>)
    ensures
        result_view(r) == password_verdict(answer, username@),
{
    match answer {
        Ok(true) => Ok(username.to_owned()),
        Ok(false) => Err(AuthError::PasswordMismatch),
        Err(e) => Err(e),
    }
}

/// Whether `password` signs `username` in, given what the persistence layer
/// answered when asked for that username.
pub open spec fn user_verdict(lookup: LookupView, username: Seq<char>, password: Seq<char>) -> Result<
    Seq<char>,
    AuthError,
> {
    match lookup {
        LookupView::Found(credential) => password_verdict(
            verify_outcome(password, credential.password_hash),
            username,
        ),
        LookupView::Absent => Err(AuthError::CredentialNotFound),
        LookupView::Unavailable => Err(AuthError::StoreUnavailable),
    }
}

/// Verifies a user against the credential that was looked up under the
/// username, and returns the verified identity.
pub fn verify_user(lookup: &Lookup, username: &str, password: &str) -> (r: Result<
    String,
    AuthError,
>)
    ensures
        result_view(r) == user_verdict(lookup@, username@, password@),
{
    match lookup {
        Lookup::Found(credential) => judge_password(
            verify_password(password, credential.password_hash.as_str()),
            username,
        ),
        Lookup::Absent => Err(AuthError::CredentialNotFound),
        Lookup::Unavailable => Err(AuthError::StoreUnavailable),
    }
}

/// Makes the credential to store for a new user: the username with a fresh
/// hash of the password, one that the password verifies against.
pub fn register_user(username: &str, password: &str) -> (r: Result<Credential, AuthError>)
    ensures
        match r {
            Ok(credential) => credential@.username == username@ && verify_outcome(
                password@,
                credential@.password_hash,
            ) == Ok::<bool, AuthError>(true),
            Err(e) => e == AuthError::HashingFailure,
        },
{
    match hash_password(password) {
        Ok(password_hash) => Ok(Credential { username: username.to_owned(), password_hash }),
        Err(e) => Err(e),
    }
}

/// What signing in yields: a token for the verified user, or the reason
/// why there is none.
pub open spec fn login_verdict(
    lookup: LookupView,
    username: Seq<char>,
    password: Seq<char>,
    secret: Seq<u8>,
    now: u64,
) -> Result<Seq<char>, AuthError> {
    match user_verdict(lookup, username, password) {
        Ok(identity) => issue_outcome(identity, secret, now),
        Err(e) => Err(e),
    }
}

/// Signs a user in: verifies the password against the credential that was
/// looked up and, where it matches, issues a token at the second `now`. The
/// token names the user as its bearer for the next `TOKEN_TTL` seconds and
/// is refused from then on.
pub fn login_token(
    lookup: &Lookup,
    username: &str,
    password: &str,
    secret: &[u8],
    now: u64,
) -> (r: Result<String, AuthError>)
    ensures
        result_view(r) == login_verdict(lookup@, username@, password@, secret@, now),
        r matches Ok(token) ==> forall|at: u64|
            now <= at < now + TOKEN_TTL ==> #[trigger] authenticate_outcome(
                decoded_token(token@, secret@),
                at,
            ) == Ok::<Seq<char>, PublicError>(username@),
        r matches Ok(token) ==> forall|at: u64|
            now + TOKEN_TTL <= at ==> #[trigger] authenticate_outcome(
                decoded_token(token@, secret@),
                at,
            ) == Err::<Seq<char>, PublicError>(PublicError::Unauthorized),
{
    match verify_user(lookup, username, password) {
        Ok(identity) => generate_jwt(identity.as_str(), secret, now),
        Err(e) => Err(e),
    }
}

/// The failure as it may leave the service.
pub open spec fn public_result<T>(r: Result<T, AuthError>) -> Result<T, PublicError> {
    match r {
        Ok(value) => Ok(value),
        Err(e) => Err(e.spec_public()),
    }
}

/// What the store answers for `username`, as a lookup.
pub open spec fn lookup_of(found: Option<CredentialView>) -> LookupView {
    match found {
        Some(credential) => LookupView::Found(credential),
        None => LookupView::Absent,
    }
}

/// A signing secret together with the credentials it guards.
pub struct AuthService {
    store: CredentialStore,
    secret: Vec<u8>,
}

impl AuthService {
    /// The service keeps its store well formed.
    pub closed spec fn wf(&self) -> bool {
        self.store.wf()
    }

    /// The stored hashes, by username.
    pub closed spec fn credentials(&self) -> Map<Seq<char>, Seq<char>> {
        self.store@
    }

    /// The secret that tokens are signed and checked with.
    pub closed spec fn secret(&self) -> Seq<u8> {
        self.secret@
    }

    /// A service with no user yet, which signs with `secret`.
    pub fn new(secret: Vec<u8>) -> (service: AuthService)
        ensures
            service.wf(),
            service.secret() == secret@,
            service.credentials() == Map::<Seq<char>, Seq<char>>::empty(),
    {
        AuthService { store: CredentialStore::new(), secret }
    }

    /// Registers a user. A username that is taken is refused and keeps the
    /// password it has; otherwise the password is hashed and stored, and
    /// the user can sign in with it. Where no hash can be made, nothing is
    /// stored.
    pub fn register(&mut self, username: &str, password: &str) -> (r: Result<(), PublicError>)
        requires
            old(self).wf(),
        ensures
            final(self).wf(),
            final(self).secret() == old(self).secret(),
            old(self).credentials().dom().contains(username@) ==> r == Err::<(), PublicError>(
                PublicError::AlreadyExists,
            ) && final(self).credentials() == old(self).credentials(),
            !old(self).credentials().dom().contains(username@) ==> match r {
                Ok(_) => final(self).credentials() == old(self).credentials().insert(
                    username@,
                    final(self).credentials()[username@],
                ) && verify_outcome(password@, final(self).credentials()[username@]) == Ok::<
                    bool,
                    AuthError,
                >(true),
                Err(e) => e == PublicError::ServerError && final(self).credentials() == old(
                    self,
                ).credentials(),
            },
    {
        if self.store.find_credential(username).is_some() {
            return Err(PublicError::AlreadyExists);
        }
        match register_user(username, password) {
            Ok(credential) => match self.store.insert_credential(credential) {
                Ok(stored) => Ok(stored),
                Err(e) => Err(e.public()),
            },
            Err(e) => Err(e.public()),
        }
    }

    /// Signs a user in at the second `now`. An unknown username and a wrong
    /// password are both answered with `InvalidCredentials`.
    pub fn login(&self, username: &str, password: &str, now: u64) -> (r: Result<
        String,
        PublicError,
    >)
        requires
            self.wf(),
        ensures
            result_view(r) == public_result(
                login_verdict(
                    lookup_of(lookup_in(self.credentials(), username@)),
                    username@,
                    password@,
                    self.secret(),
                    now,
                ),
            ),
            r matches Ok(token) ==> forall|at: u64|
                now <= at < now + TOKEN_TTL ==> #[trigger] authenticate_outcome(
                    decoded_token(token@, self.secret()),
                    at,
                ) == Ok::<Seq<char>, PublicError>(username@),
            r matches Ok(token) ==> forall|at: u64|
                now + TOKEN_TTL <= at ==> #[trigger] authenticate_outcome(
                    decoded_token(token@, self.secret()),
                    at,
                ) == Err::<Seq<char>, PublicError>(PublicError::Unauthorized),
    {
        let lookup = match self.store.find_credential(username) {
            Some(credential) => Lookup::Found(credential),
            None => Lookup::Absent,
        };
        match login_token(&lookup, username, password, self.secret.as_slice(), now) {
            Ok(token) => Ok(token),
            Err(e) => Err(e.public()),
        }
    }

    /// Names the bearer of `token` at the second `now`, or refuses the
    /// token without saying why.
    pub fn authenticate(&self, token: &str, now: u64) -> (r: Result<String, PublicError>)
        ensures
            result_view(r) == authenticate_outcome(decoded_token(token@, self.secret()), now),
    {
        authenticate(token, self.secret.as_slice(), now)
    }
}

/// Whoever has registered can sign in: once a hash that the password
/// verifies against is stored under the username, signing in with that
/// password yields whatever issuing a token yields.
pub proof fn law_registered_user_signs_in(
    stored: Map<Seq<char>, Seq<char>>,
    username: Seq<char>,
    password: Seq<char>,
    hash: Seq<char>,
    secret: Seq<u8>,
    now: u64,
)
    requires
        verify_outcome(password, hash) == Ok::<bool, AuthError>(true),
    ensures
        login_verdict(
            lookup_of(lookup_in(stored.insert(username, hash), username)),
            username,
            password,
            secret,
            now,
        ) == issue_outcome(username, secret, now),
{
}

/// A sign-in under a username that is not stored and a sign-in with a
/// password that the stored hash does not verify are told the same thing:
/// `InvalidCredentials`.
pub proof fn law_refusals_do_not_tell_users_apart(
    stored: Map<Seq<char>, Seq<char>>,
    unknown: Seq<char>,
    known: Seq<char>,
    any_password: Seq<char>,
    wrong_password: Seq<char>,
    secret: Seq<u8>,
    now: u64,
)
    requires
        !stored.dom().contains(unknown),
        stored.dom().contains(known),
        verify_outcome(wrong_password, stored[known]) != Ok::<bool, AuthError>(true),
    ensures
        public_result(
            login_verdict(
                lookup_of(lookup_in(stored, unknown)),
                unknown,
                any_password,
                secret,
                now,
            ),
        ) == Err::<Seq<char>, PublicError>(PublicError::InvalidCredentials),
        public_result(
            login_verdict(
                lookup_of(lookup_in(stored, known)),
                known,
                wrong_password,
                secret,
                now,
            ),
        ) == Err::<Seq<char>, PublicError>(PublicError::InvalidCredentials),
{
}

/// Signing in fails only for the credentials' sake, for want of the store,
/// or for want of a signature; and a username that the store does not hold
/// is recorded as `CredentialNotFound`.
pub proof fn law_sign_in_failures(
    lookup: LookupView,
    username: Seq<char>,
    password: Seq<char>,
    secret: Seq<u8>,
    now: u64,
)
    ensures
        login_verdict(lookup, username, password, secret, now) matches Err(e) ==> e.is_credential_failure()
            || e == AuthError::StoreUnavailable || e == AuthError::SigningFailure,
        lookup is Absent ==> login_verdict(lookup, username, password, secret, now) == Err::<
            Seq<char>,
            AuthError,
        >(AuthError::CredentialNotFound),
{
}

} // verus!
