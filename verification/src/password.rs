//! Password hasher: derives and verifies salted PHC-encoded password hashes.
//!
//! Hashing and digest comparison are delegated to the `argon2` crate; what
//! those calls decide is named by the two uninterpreted spec functions below,
//! and everything built on top of them is verified against those names.

use argon2::PasswordHasher;
use argon2::PasswordVerifier;
use vstd::prelude::*;

verus! {

/// What `argon2::PasswordHash::new` decides for a stored hash string:
/// whether it is a well-formed PHC-encoded password hash.
pub uninterp spec fn hash_parses(h: Seq<char>) -> bool;

/// What `Argon2::verify_password` decides for a password and a PHC hash
/// string: whether the digest recomputed from the password, with the salt
/// and parameters embedded in the hash, equals the embedded digest.
pub uninterp spec fn hash_matches(password: Seq<char>, h: Seq<char>) -> bool;

/// Relies on `argon2::PasswordHash::new` (the `phc` PHC-string parser):
/// whether a string parses is a function of the string alone.
#[verifier::external_body]
pub(crate) fn parse_password_hash(h: &str) -> (r: bool)
    ensures
        r == hash_parses(h@),
{
    argon2::PasswordHash::new(h).is_ok()
}

/// Relies on `Argon2::verify_password` with the default (secret-less)
/// context: the outcome is recomputed from the password and the salt and
/// parameters of the hash alone, and compared in constant time.
#[verifier::external_body]
pub(crate) fn verify_parsed_password(password: &str, h: &str) -> (r: bool)
    requires
        hash_parses(h@),
    ensures
        r == hash_matches(password@, h@),
{
    match argon2::PasswordHash::new(h) {
        Ok(parsed) => argon2::Argon2::default().verify_password(
            password.as_bytes(),
            &parsed,
        ).is_ok(),
        Err(_) => false,
    }
}

/// Relies on `Argon2::hash_password` with the default context: it draws a
/// fresh random salt, and returns a PHC string that `PasswordHash::new`
/// parses and that `verify_password` accepts for the same password.
#[verifier::external_body]
pub fn prepare_password(password_string: &str) -> (r: String)
    requires
        password_string@.len() <= 0x3fff_ffff,
    ensures
        hash_parses(r@),
        hash_matches(password_string@, r@),
{
    argon2::Argon2::default()
        .hash_password(password_string.as_bytes())
        .expect("failed to hash password")
        .to_string()
}

/// Verifies a plaintext password against a stored encoded hash.
///
/// Fails closed: a hash that does not parse never matches, and never panics.
pub fn verify(password: &str, encoded_hash: &str) -> (r: bool)
    ensures
        r == (hash_parses(encoded_hash@) && hash_matches(password@, encoded_hash@)),
{
    if parse_password_hash(encoded_hash) {
        verify_parsed_password(password, encoded_hash)
    } else {
        false
    }
}

} // verus!
