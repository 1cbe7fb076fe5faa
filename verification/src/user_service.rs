//! Credential validation: looks a user up by email and verifies the
//! presented password against the stored hash.
//!
//! The outcome is kept as a four-way split rather than a boolean so that
//! callers can report data corruption apart from genuine mismatches while
//! still showing one uniform message to the end user.

use crate::password::{hash_matches, hash_parses, parse_password_hash, verify_parsed_password};
use crate::user::{User, UserStore};
use vstd::prelude::*;

verus! {

/// The outcome of validating an email/password pair.
#[derive(PartialEq, Eq, Structural, Debug)]
pub enum UserValidationResult {
    InvalidEmail,
    InvalidPasswordHash,
    Invalid,
    Valid,
}

/// The outcome validation owes for a store and a credential pair: no record
/// with the email, a stored hash that does not parse, a parsed hash the
/// password does not match, or a match.
pub open spec fn spec_validate(
    store: UserStore,
    email: Seq<char>,
    password: Seq<char>,
) -> UserValidationResult {
    match store.spec_find_by_email(email) {
        None => UserValidationResult::InvalidEmail,
        Some(u) => if !hash_parses(u.password@) {
            UserValidationResult::InvalidPasswordHash
        } else if hash_matches(password, u.password@) {
            UserValidationResult::Valid
        } else {
            UserValidationResult::Invalid
        },
    }
}

/// Validates a credential pair against the stored records.
pub fn validate_user_credentials(store: &UserStore, user_email: &str, user_password: &str) -> (r:
    UserValidationResult)
    ensures
        r == spec_validate(*store, user_email@, user_password@),
{
    match store.find_by_email(user_email) {
        None => UserValidationResult::InvalidEmail,
        Some(user) => {
            if !parse_password_hash(user.password.as_str()) {
                UserValidationResult::InvalidPasswordHash
            } else if verify_parsed_password(user_password, user.password.as_str()) {
                UserValidationResult::Valid
            } else {
                UserValidationResult::Invalid
            }
        },
    }
}

/// Law: an email no record holds validates to `InvalidEmail`, whatever the
/// password.
pub proof fn lemma_validate_unknown_email(store: UserStore, email: Seq<char>, password: Seq<char>)
    requires
        store.spec_find_by_email(email) is None,
    ensures
        spec_validate(store, email, password) == UserValidationResult::InvalidEmail,
{
}

/// Law: for a stored record whose hash parses, validation answers `Valid`
/// exactly when the presented password matches the stored hash, and
/// `Invalid` for every other password.
pub proof fn lemma_validate_stored_user(
    store: UserStore,
    email: Seq<char>,
    password: Seq<char>,
    u: User,
)
    requires
        store.spec_find_by_email(email) == Some(u),
        hash_parses(u.password@),
    ensures
        hash_matches(password, u.password@) ==> spec_validate(store, email, password)
            == UserValidationResult::Valid,
        !hash_matches(password, u.password@) ==> spec_validate(store, email, password)
            == UserValidationResult::Invalid,
{
}

} // verus!
