//! Salted, memory-hard password hashes (Argon2id in PHC string form).

use vstd::prelude::*;
use vstd::string::StringSliceAdditionalSpecFns;
use argon2::password_hash::rand_core::{OsRng, RngCore};
use argon2::password_hash::{PasswordHasher, PasswordVerifier, Salt, SaltString};
use argon2::{Argon2, PasswordHash};
use crate::error::AuthError;

verus! {

/// Whether `hash` parses as a PHC password-hash string.
pub uninterp spec fn phc_parses(hash: Seq<char>) -> bool;

/// Whether Argon2, run with the parameters and salt embedded in `hash`,
/// reproduces the digest embedded in `hash` for `password`.
pub uninterp spec fn argon2_accepts(password: Seq<char>, hash: Seq<char>) -> bool;

/// Relies on `argon2::PasswordHash::new` (parse the PHC string) and on
/// `PasswordVerifier::verify_password` of `Argon2::default()` (recompute the
/// digest under the embedded parameters and salt, compare it in constant time).
/// `None` when the string does not parse.
#[verifier::external_body]
fn argon2_check(password: &str, hash: &str) -> (r: Option<bool>)
    ensures
        r is None <==> !phc_parses(hash@),
        r matches Some(ok) ==> ok == argon2_accepts(password@, hash@),
{
    match PasswordHash::new(hash) {
        Ok(parsed) => Some(Argon2::default().verify_password(password.as_bytes(), &parsed).is_ok()),
        Err(_) => None,
    }
}

/// Relies on `RngCore::try_fill_bytes` of the operating system's random
/// source (`OsRng`): fills `Salt::RECOMMENDED_LENGTH` (16) random bytes, or
/// reports that the source failed. Nothing is stated of the bytes' values.
#[verifier::external_body]
fn random_salt() -> (r: Option<Vec<u8>>)
    ensures
        r matches Some(v) ==> v@.len() == SALT_LEN,
{
    let mut bytes = vec![0u8; Salt::RECOMMENDED_LENGTH];
    OsRng.try_fill_bytes(&mut bytes).ok().map(|_| bytes)
}

/// Relies on `SaltString::encode_b64` (the salt in PHC's Base64) and on
/// `PasswordHasher::hash_password` of `Argon2::default()`, rendered as a PHC
/// string. What the crate documents of the result: it parses back, and
/// verifying the same password against it succeeds. With a 16-byte salt the
/// only failure is a password longer than `argon2::MAX_PWD_LEN` bytes.
#[verifier::external_body]
fn argon2_hash(password: &str, salt: &[u8]) -> (r: Option<String>)
    requires
        salt@.len() == SALT_LEN,
    ensures
        r is Some <==> password.spec_bytes().len() <= MAX_PASSWORD_BYTES,
        r matches Some(h) ==> phc_parses(h@) && argon2_accepts(password@, h@),
{
    let salt = SaltString::encode_b64(salt).ok()?;
    Argon2::default().hash_password(password.as_bytes(), &salt).ok().map(|h| h.to_string())
}

/// The length of the salts drawn for new hashes, in bytes.
pub const SALT_LEN: usize = 16;

/// The longest password that Argon2 takes, in bytes.
pub const MAX_PASSWORD_BYTES: usize = 0xFFFFFFFF;

/// Hashes `password` under the given salt bytes. It succeeds exactly when the
/// salt has `SALT_LEN` bytes and the password is no longer than Argon2 takes;
/// the hash then verifies `password`.
pub fn hash_password_with_salt(password: &str, salt: &[u8]) -> (r: Result<String, AuthError>)
    ensures
        r is Ok <==> salt@.len() == SALT_LEN && password.spec_bytes().len() <= MAX_PASSWORD_BYTES,
        r matches Ok(h) ==> phc_parses(h@) && argon2_accepts(password@, h@),
        r matches Err(e) ==> e == AuthError::Hashing,
{
    if salt.len() != SALT_LEN {
        return Err(AuthError::Hashing);
    }
    match argon2_hash(password, salt) {
        Some(h) => Ok(h),
        None => Err(AuthError::Hashing),
    }
}

/// Hashes `password` under a fresh random salt. Every hash this returns
/// verifies `password`. Once the random source has given a salt, the outcome is
/// that of `hash_password_with_salt`; a failure of the random source is
/// `Hashing`.
pub fn hash_password(password: &str) -> (r: Result<String, AuthError>)
    ensures
        r matches Ok(h) ==> phc_parses(h@) && argon2_accepts(password@, h@),
        password.spec_bytes().len() > MAX_PASSWORD_BYTES ==> r is Err,
        r matches Err(e) ==> e == AuthError::Hashing,
{
    let salt = match random_salt() {
        Some(salt) => salt,
        None => return Err(AuthError::Hashing),
    };
    hash_password_with_salt(password, salt.as_slice())
}

/// Checks `password` against a stored hash: `Ok(true)` exactly when the hash
/// parses and accepts the password, `Err(MalformedHash)` when it does not parse.
pub fn verify_password(password: &str, password_hash: &str) -> (r: Result<bool, AuthError>)
    ensures
        phc_parses(password_hash@) ==> r == Ok::<bool, AuthError>(
            argon2_accepts(password@, password_hash@),
        ),
        !phc_parses(password_hash@) ==> r == Err::<bool, AuthError>(AuthError::MalformedHash),
{
    match argon2_check(password, password_hash) {
        Some(ok) => Ok(ok),
        None => Err(AuthError::MalformedHash),
    }
}

/// Whether `password` is the one a stored hash was made from; a hash that
/// does not parse accepts nothing.
pub open spec fn password_matches(password: Seq<char>, hash: Seq<char>) -> bool {
    phc_parses(hash) && argon2_accepts(password, hash)
}

} // verus!
