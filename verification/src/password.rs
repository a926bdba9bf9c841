//! Salted one-way hashes of passwords.
//!
//! The hashing itself is bcrypt's. What this module adds is the contract
//! under which the rest of the service uses it.

use vstd::prelude::*;
use crate::errors::AuthError;

verus! {

/// The work factor that new hashes are made with.
pub const HASH_COST: u32 = 4;

/// The error type of `bcrypt`, carried through unopened.
#[verifier::external_type_specification]
#[verifier::external_body]
pub struct ExBcryptError(bcrypt::BcryptError);

/// The answer of `bcrypt::verify` to a password and a hash string:
/// `Some(b)` where it returns `Ok(b)`, `None` where it returns an error.
pub uninterp spec fn bcrypt_answer(password: Seq<char>, hash: Seq<char>) -> Option<bool>;

/// Calls `bcrypt::verify`.
///
/// Trusted, not proved: the call's result is a function of the two strings
/// alone, which `bcrypt_answer` names. It returns an error, and does not
/// panic, on a string that is no bcrypt hash.
#[verifier::external_body]
fn bcrypt_verify(password: &str, hash: &str) -> (r: Result<bool, bcrypt::BcryptError>)
    ensures
        match r {
            Ok(b) => bcrypt_answer(password@, hash@) == Some(b),
            Err(_) => bcrypt_answer(password@, hash@) is None,
        },
{
    bcrypt::verify(password, hash)
}

/// Calls `bcrypt::hash`, which draws a fresh salt from the operating
/// system for every call.
///
/// Trusted, not proved: whatever hash string comes back, `bcrypt::verify`
/// reads the cost and the salt out of it, hashes the same password again
/// and so answers `Ok(true)`. Nothing is claimed about which string comes
/// back, nor about when the call fails.
#[verifier::external_body]
fn bcrypt_hash(password: &str, cost: u32) -> (r: Result<String, bcrypt::BcryptError>)
    ensures
        r matches Ok(h) ==> bcrypt_answer(password@, h@) == Some(true),
{
    bcrypt::hash(password, cost)
}

/// What checking `password` against `hash` yields: whether it is the
/// password the hash was made from, or that the hash cannot be read.
pub open spec fn verify_outcome(password: Seq<char>, hash: Seq<char>) -> Result<bool, AuthError> {
    match bcrypt_answer(password, hash) {
        Some(matches) => Ok(matches),
        None => Err(AuthError::HashMalformed),
    }
}

/// Checks a password against a stored hash. A hash string that is not a
/// bcrypt hash is reported, not panicked on.
pub fn verify_password(password: &str, hash: &str) -> (r: Result<bool, AuthError>)
    ensures
        r == verify_outcome(password@, hash@),
{
    match bcrypt_verify(password, hash) {
        Ok(matches) => Ok(matches),
        Err(_) => Err(AuthError::HashMalformed),
    }
}

/// Hashes a password under a fresh salt, so that two calls on one password
/// give different strings. Every hash it returns verifies against the
/// password it was made from.
pub fn hash_password(password: &str) -> (r: Result<String, AuthError>)
    ensures
        match r {
            Ok(h) => verify_outcome(password@, h@) == Ok::<bool, AuthError>(true),
            Err(e) => e == AuthError::HashingFailure,
        },
{
    match bcrypt_hash(password, HASH_COST) {
        Ok(h) => Ok(h),
        Err(_) => Err(AuthError::HashingFailure),
    }
}

} // verus!
