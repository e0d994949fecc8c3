//! Hashing secrets with argon2 and checking attempts against stored hashes.

use vstd::prelude::*;
use argon2::password_hash::rand_core::{OsRng, RngCore};
use argon2::password_hash::{PasswordHash, PasswordHasher, PasswordVerifier, SaltString};
use argon2::Argon2;
use crate::error::AppErrors;

verus! {

#[verifier::external_type_specification]
#[verifier::external_body]
pub struct ExHashError(argon2::password_hash::Error);

#[verifier::external_type_specification]
#[verifier::external_body]
pub struct ExRandomError(argon2::password_hash::rand_core::Error);

/// The number of random bytes drawn for each salt.
pub const SALT_LEN: usize = 16;

/// Whether `encoded` parses as a PHC hash string.
pub uninterp spec fn phc_parses(encoded: Seq<char>) -> bool;

/// What argon2 says of `secret` against the PHC string `encoded`, run with the
/// algorithm, version, parameters and salt that `encoded` carries: whether the
/// output it derives is the one recorded, or `None` where it cannot run.
pub uninterp spec fn argon2_verdict(secret: Seq<u8>, encoded: Seq<char>) -> Option<bool>;

/// The PHC string that argon2, with its default algorithm and parameters,
/// makes of `secret` under the salt `salt`.
pub uninterp spec fn argon2_phc(secret: Seq<u8>, salt: Seq<u8>) -> Seq<char>;

/// What checking `attempt` against the stored hash `encoded` gives: whether it
/// matches, or `None` where `encoded` is not a usable hash.
pub open spec fn verify_outcome(attempt: Seq<u8>, encoded: Seq<char>) -> Option<bool> {
    if phc_parses(encoded) {
        argon2_verdict(attempt, encoded)
    } else {
        None
    }
}

/// `encoded` is a hash of `secret`: checking `secret` against it matches.
pub open spec fn is_hash_of(encoded: Seq<char>, secret: Seq<u8>) -> bool {
    verify_outcome(secret, encoded) == Some(true)
}

/// argon2 takes secrets of at most `u32::MAX` bytes.
pub open spec fn hashable(secret: Seq<u8>) -> bool {
    secret.len() <= u32::MAX
}

/// A salt length that the PHC string can carry and argon2 accepts.
pub open spec fn salt_fits(salt: Seq<u8>) -> bool {
    8 <= salt.len() <= 48
}

/// Relies on `RngCore::try_fill_bytes` of `OsRng`: fills `buf` from the
/// operating system's random source, or reports that the source failed.
#[verifier::external_body]
fn fill_random(buf: &mut Vec<u8>) -> (r: Result<(), argon2::password_hash::rand_core::Error>)
    ensures
        final(buf)@.len() == old(buf)@.len(),
{
    OsRng.try_fill_bytes(buf.as_mut_slice())
}

/// Relies on `SaltString::encode_b64`, `PasswordHasher::hash_password` of
/// `Argon2::default()` and the `Display` of the resulting `PasswordHash`. For
/// 8 to 48 salt bytes the salt encodes (64 characters at most) and argon2
/// accepts it, so hashing fails exactly on a secret over `u32::MAX` bytes
/// (`Error::PwdTooLong`). The
/// PHC string records the algorithm, version, parameters, salt and output, so
/// that verifying `secret` against it recomputes the same output.
#[verifier::external_body]
fn argon2_hash(secret: &[u8], salt: &[u8]) -> (r: Result<String, argon2::password_hash::Error>)
    requires
        salt_fits(salt@),
    ensures
        (r is Ok) == hashable(secret@),
        r matches Ok(h) ==> h@ == argon2_phc(secret@, salt@),
        r matches Ok(h) ==> phc_parses(h@) && argon2_verdict(secret@, h@) == Some(true),
{
    let salt = SaltString::encode_b64(salt)?;
    Argon2::default().hash_password(secret, &salt).map(|h| h.to_string())
}

/// Relies on `PasswordHash::new`, which parses a PHC string, and on
/// `PasswordVerifier::verify_password` of `Argon2::default()`: `Ok` where the
/// recomputed output matches, `Error::Password` where it does not, another
/// error where it cannot run.
#[verifier::external_body]
fn argon2_verify(secret: &[u8], encoded: &str) -> (r: Result<bool, argon2::password_hash::Error>)
    ensures
        (r is Ok) == (phc_parses(encoded@) && argon2_verdict(secret@, encoded@) is Some),
        r matches Ok(b) ==> argon2_verdict(secret@, encoded@) == Some(b),
{
    let parsed = PasswordHash::new(encoded)?;
    match Argon2::default().verify_password(secret, &parsed) {
        Ok(()) => Ok(true),
        Err(argon2::password_hash::Error::Password) => Ok(false),
        Err(e) => Err(e),
    }
}

/// Draws `SALT_LEN` bytes from the operating system's random source.
pub fn draw_salt() -> (r: Result<Vec<u8>, AppErrors>)
    ensures
        r matches Ok(s) ==> s@.len() == SALT_LEN,
        r matches Err(e) ==> e is RandomSource,
{
    let mut salt: Vec<u8> = Vec::new();
    let mut i: usize = 0;
    while i < SALT_LEN
        invariant
            i <= SALT_LEN,
            salt@.len() == i,
        decreases SALT_LEN - i,
    {
        salt.push(0u8);
        i = i + 1;
    }
    match fill_random(&mut salt) {
        Ok(()) => Ok(salt),
        Err(e) => Err(AppErrors::RandomSource(e)),
    }
}

/// Hashes `secret` with argon2 under `salt`, into a PHC string that records
/// the salt and the parameters. Fails, with a hashing error, exactly on a secret
/// over `u32::MAX` bytes.
pub fn hash_password_with_salt(secret: &[u8], salt: &[u8]) -> (r: Result<String, AppErrors>)
    requires
        salt_fits(salt@),
    ensures
        (r is Ok) == hashable(secret@),
        r matches Ok(h) ==> h@ == argon2_phc(secret@, salt@) && is_hash_of(h@, secret@),
        r matches Err(e) ==> e is Hashing,
{
    match argon2_hash(secret, salt) {
        Ok(h) => Ok(h),
        Err(e) => Err(AppErrors::Hashing(e)),
    }
}

/// Hashes `secret` with argon2 under a fresh random salt. Fails where the
/// random source fails, or, with a hashing error, on a secret over
/// `u32::MAX` bytes.
pub fn hash_password(secret: &[u8]) -> (r: Result<String, AppErrors>)
    ensures
        r matches Ok(h) ==> exists|salt: Seq<u8>| salt.len() == SALT_LEN && h@ == argon2_phc(secret@, salt),
        r matches Ok(h) ==> is_hash_of(h@, secret@),
        r matches Err(e) ==> e is RandomSource || (e is Hashing && !hashable(secret@)),
{
    let salt = draw_salt()?;
    hash_password_with_salt(secret, salt.as_slice())
}

/// Checks `attempt` against the stored hash `password_hash`: `Ok(true)` where
/// it matches, `Ok(false)` where it does not, a hashing error where the stored
/// hash is not well formed or argon2 cannot run on it.
pub fn verify_password(attempt: &[u8], password_hash: &str) -> (r: Result<bool, AppErrors>)
    ensures
        verify_outcome(attempt@, password_hash@) matches Some(b) ==> r == Ok::<bool, AppErrors>(b),
        verify_outcome(attempt@, password_hash@) is None ==> (r matches Err(e) && e is Hashing),
{
    match argon2_verify(attempt, password_hash) {
        Ok(b) => Ok(b),
        Err(e) => Err(AppErrors::Hashing(e)),
    }
}

/// A secret checked against any hash made of it matches.
pub proof fn lemma_round_trip(secret: Seq<u8>, encoded: Seq<char>)
    requires
        is_hash_of(encoded, secret),
    ensures
        verify_outcome(secret, encoded) == Some(true),
{
}

} // verus!
