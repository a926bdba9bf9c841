//! Signed session tokens: issuing them and judging them.
//!
//! A token is a JSON Web Token signed with HMAC-SHA256 under one shared
//! secret. Building and parsing the token text is the work of the
//! `jsonwebtoken` crate; which claims go in, and when a token that parses is
//! still accepted, is decided here.

use vstd::prelude::*;
use crate::errors::{AuthError, PublicError};
use crate::models::{result_view, Claims, ClaimsView};

verus! {

/// The number of seconds for which an issued token is accepted.
pub const TOKEN_TTL: u64 = 3600;

/// What reading a token under a secret yields, before any clock is consulted.
#[derive(Debug, Clone, PartialEq, Eq)]
pub enum Decoded {
    /// The signature is the one the secret gives and the payload is JSON.
    /// Each field is present where the payload holds it with the right type:
    /// `sub` a string, `exp` a whole number that fits in 64 bits.
    Payload { sub: Option<String>, exp: Option<u64> },
    /// The token has the shape of a token, and another signature.
    BadSignature,
    /// The token cannot be taken apart, or names another algorithm, or its
    /// payload is not what a session token may hold.
    Unreadable,
}

/// What a `Decoded` holds.
pub enum DecodedView {
    Payload { sub: Option<Seq<char>>, exp: Option<u64> },
    BadSignature,
    Unreadable,
}

impl View for Decoded {
    type V = DecodedView;

    open spec fn view(&self) -> DecodedView {
        match self {
            Decoded::Payload { sub, exp } => DecodedView::Payload {
                sub: match sub {
                    Some(s) => Some(s@),
                    None => None,
                },
                exp: *exp,
            },
            Decoded::BadSignature => DecodedView::BadSignature,
            Decoded::Unreadable => DecodedView::Unreadable,
        }
    }
}

/// The error type of `jsonwebtoken`, carried through unopened.
#[verifier::external_type_specification]
#[verifier::external_body]
pub struct ExTokenError(jsonwebtoken::errors::Error);

/// The token text that `jsonwebtoken::encode` returns for the claims
/// `{"sub": sub, "exp": exp}`, in this order, under its default header
/// (type JWT, algorithm HS256) and `secret` as an HMAC key; `None` where it
/// returns an error.
pub uninterp spec fn signed_token(sub: Seq<char>, exp: u64, secret: Seq<u8>) -> Option<Seq<char>>;

/// What `jsonwebtoken::decode` makes of `token` with `secret` as an HMAC
/// key, HS256 as the one accepted algorithm, an `exp` claim required and
/// the comparison of `exp` with the clock switched off: the `sub` and `exp`
/// of the payload where it returns `Ok`, `BadSignature` where its error is
/// `InvalidSignature`, `Unreadable` where it is any other.
pub uninterp spec fn decoded_token(token: Seq<char>, secret: Seq<u8>) -> DecodedView;

/// Calls `jsonwebtoken::encode` on a JSON object of the two claims.
///
/// Trusted, not proved: the token is a function of the claims and the
/// secret alone, which `signed_token` names; and a token that `encode` has
/// made is one that `decode` accepts under the same secret and reads back
/// as the same two claims, since `decode` recomputes the HMAC that `encode`
/// appended and parses the JSON that `encode` wrote. Nothing is claimed
/// about when the call fails.
#[verifier::external_body]
fn encode_claims(sub: &str, exp: u64, secret: &[u8]) -> (r: Result<
    String,
    jsonwebtoken::errors::Error,
>)
    ensures
        match r {
            Ok(t) => signed_token(sub@, exp, secret@) == Some(t@) && decoded_token(t@, secret@)
                == (DecodedView::Payload { sub: Some(sub@), exp: Some(exp) }),
            Err(_) => signed_token(sub@, exp, secret@) is None,
        },
{
    let mut claims = serde_json::Map::new();
    claims.insert("sub".to_owned(), serde_json::Value::from(sub));
    claims.insert("exp".to_owned(), serde_json::Value::from(exp));
    let key = jsonwebtoken::EncodingKey::from_secret(secret);
    jsonwebtoken::encode(&jsonwebtoken::Header::default(), &claims, &key)
}

/// Calls `jsonwebtoken::decode` into a JSON value and hands on what this
/// service reads of it.
///
/// Trusted, not proved: with `validate_exp` off, `decode` reads no clock,
/// so its result is a function of the token and the secret alone, which
/// `decoded_token` names. The body turns that result into a `Decoded`: the
/// payload's `sub` where it is a string and its `exp` where it is an
/// unsigned integer of 64 bits, and of the errors it tells apart only
/// `InvalidSignature`, which `decode` returns where the recomputed HMAC
/// differs from the token's third part.
#[verifier::external_body]
fn decode_claims(token: &str, secret: &[u8]) -> (d: Decoded)
    ensures
        d@ == decoded_token(token@, secret@),
{
    let mut validation = jsonwebtoken::Validation::new(jsonwebtoken::Algorithm::HS256);
    validation.validate_exp = false;
    let key = jsonwebtoken::DecodingKey::from_secret(secret);
    match jsonwebtoken::decode::<serde_json::Value>(token, &key, &validation) {
        Ok(data) => Decoded::Payload {
            sub: data.claims.get("sub").and_then(serde_json::Value::as_str).map(str::to_owned),
            exp: data.claims.get("exp").and_then(serde_json::Value::as_u64),
        },
        Err(e) => match e.kind() {
            jsonwebtoken::errors::ErrorKind::InvalidSignature => Decoded::BadSignature,
            _ => Decoded::Unreadable,
        },
    }
}

/// The verdict on a token that has been read, at the second `now`: the
/// claims where both are present and the expiry lies strictly after `now`.
pub open spec fn claims_verdict(d: DecodedView, now: u64) -> Result<ClaimsView, AuthError> {
    match d {
        DecodedView::Payload { sub: Some(sub), exp: Some(exp) } => if exp > now {
            Ok(ClaimsView { sub, exp })
        } else {
            Err(AuthError::TokenExpired)
        },
        DecodedView::Payload { .. } => Err(AuthError::TokenMalformed),
        DecodedView::BadSignature => Err(AuthError::TokenBadSignature),
        DecodedView::Unreadable => Err(AuthError::TokenMalformed),
    }
}

/// Judges a token that has been read, at the second `now`.
pub fn check_claims(d: Decoded, now: u64) -> (r: Result<Claims, AuthError>)
    ensures
        result_view(r) == claims_verdict(d@, now),
{
    match d {
        Decoded::Payload { sub: Some(sub), exp: Some(exp) } => {
            if exp > now {
                Ok(Claims { sub, exp })
            } else {
                Err(AuthError::TokenExpired)
            }
        },
        Decoded::Payload { .. } => Err(AuthError::TokenMalformed),
        Decoded::BadSignature => Err(AuthError::TokenBadSignature),
        Decoded::Unreadable => Err(AuthError::TokenMalformed),
    }
}

/// The expiry of a token issued at the second `now`, where the clock leaves
/// room for one.
pub open spec fn expiry_of(now: u64) -> Option<u64> {
    if now + TOKEN_TTL <= u64::MAX {
        Some((now + TOKEN_TTL) as u64)
    } else {
        None
    }
}

/// What issuing a token for `username` at the second `now` yields.
pub open spec fn issue_outcome(username: Seq<char>, secret: Seq<u8>, now: u64) -> Result<
    Seq<char>,
    AuthError,
> {
    match expiry_of(now) {
        Some(exp) => match signed_token(username, exp, secret) {
            Some(token) => Ok(token),
            None => Err(AuthError::SigningFailure),
        },
        None => Err(AuthError::SigningFailure),
    }
}

/// Issues a token that names `username` as its bearer and expires
/// `TOKEN_TTL` seconds after `now`. Such a token is accepted under the same
/// secret from the second of its issue until its expiry, and refused as
/// expired from then on.
pub fn generate_jwt(username: &str, secret: &[u8], now: u64) -> (r: Result<String, AuthError>)
    ensures
        result_view(r) == issue_outcome(username@, secret@, now),
        r matches Ok(t) ==> forall|at: u64|
            now <= at < now + TOKEN_TTL ==> #[trigger] claims_verdict(
                decoded_token(t@, secret@),
                at,
            ) == Ok::<ClaimsView, AuthError>(
                ClaimsView { sub: username@, exp: (now + TOKEN_TTL) as u64 },
            ),
        r matches Ok(t) ==> forall|at: u64|
            now + TOKEN_TTL <= at ==> #[trigger] claims_verdict(decoded_token(t@, secret@), at)
                == Err::<ClaimsView, AuthError>(AuthError::TokenExpired),
{
    match now.checked_add(TOKEN_TTL) {
        Some(exp) => match encode_claims(username, exp, secret) {
            Ok(token) => Ok(token),
            Err(_) => Err(AuthError::SigningFailure),
        },
        None => Err(AuthError::SigningFailure),
    }
}

/// Reads `token` under `secret` and judges it at the second `now`. The
/// verdict depends on these three alone.
pub fn validate_jwt(token: &str, secret: &[u8], now: u64) -> (r: Result<Claims, AuthError>)
    ensures
        result_view(r) == claims_verdict(decoded_token(token@, secret@), now),
{
    check_claims(decode_claims(token, secret), now)
}

/// What a caller outside learns of a token: its bearer, or that it is not
/// accepted.
pub open spec fn authenticate_outcome(d: DecodedView, now: u64) -> Result<Seq<char>, PublicError> {
    match claims_verdict(d, now) {
        Ok(claims) => Ok(claims.sub),
        Err(_) => Err(PublicError::Unauthorized),
    }
}

/// Names the bearer of `token`, or refuses it without saying why.
pub fn authenticate(token: &str, secret: &[u8], now: u64) -> (r: Result<String, PublicError>)
    ensures
        result_view(r) == authenticate_outcome(decoded_token(token@, secret@), now),
{
    match validate_jwt(token, secret, now) {
        Ok(claims) => Ok(claims.sub),
        Err(e) => Err(e.public()),
    }
}

/// A token is refused only as malformed, as badly signed or as expired,
/// and a bad signature is reported whatever the time.
pub proof fn law_refusals_are_token_failures(d: DecodedView, now: u64)
    ensures
        claims_verdict(d, now) matches Err(e) ==> e.is_token_failure(),
        d is BadSignature ==> claims_verdict(d, now) == Err::<ClaimsView, AuthError>(
            AuthError::TokenBadSignature,
        ),
{
}

/// A token that holds both claims is accepted at every second before its
/// expiry and refused as expired at every second from its expiry on.
pub proof fn law_accepted_until_expiry(sub: Seq<char>, exp: u64, now: u64)
    ensures
        now < exp ==> claims_verdict(DecodedView::Payload { sub: Some(sub), exp: Some(exp) }, now)
            == Ok::<ClaimsView, AuthError>(ClaimsView { sub, exp }),
        now >= exp ==> claims_verdict(DecodedView::Payload { sub: Some(sub), exp: Some(exp) }, now)
            == Err::<ClaimsView, AuthError>(AuthError::TokenExpired),
{
}

/// Expiry is final: a token refused as expired at one second is refused as
/// expired at every later one.
pub proof fn law_expired_stays_expired(d: DecodedView, now: u64, later: u64)
    requires
        claims_verdict(d, now) == Err::<ClaimsView, AuthError>(AuthError::TokenExpired),
        now <= later,
    ensures
        claims_verdict(d, later) == Err::<ClaimsView, AuthError>(AuthError::TokenExpired),
{
}

} // verus!
