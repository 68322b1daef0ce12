//! Password hashing and checking, done by the `bcrypt` crate.

use vstd::prelude::*;
use vstd::string::*;

verus! {

/// The error of the `bcrypt` crate. Nothing is read out of it.
#[verifier::external_type_specification]
#[verifier::external_body]
pub struct ExBcryptError(bcrypt::BcryptError);

/// What `bcrypt::verify` gives for a password and a stored hash: whether
/// they match, or nothing where the stored text is no bcrypt hash.
pub uninterp spec fn password_check(password: Seq<char>, hashed: Seq<char>) -> Option<bool>;

/// A hash accepts a password when checking the two says yes.
pub open spec fn accepts(hashed: Seq<char>, password: Seq<char>) -> bool {
    password_check(password, hashed) == Some(true)
}

/// Calls `bcrypt::verify`, which reads cost and salt out of `hashed`, hashes
/// `password` again and compares: its answer depends on the two texts alone.
/// An unreadable hash is an error.
#[verifier::external_body]
fn bcrypt_verify(password: &str, hashed: &str) -> (outcome: Result<bool, bcrypt::BcryptError>)
    ensures
        match outcome {
            Ok(same) => password_check(password@, hashed@) == Some(same),
            Err(_) => password_check(password@, hashed@) is None,
        },
{
    bcrypt::verify(password, hashed)
}

/// Calls `bcrypt::hash` at the default cost, with a salt from the operating
/// system. The hash differs from call to call; it is always sixty characters
/// long, and `bcrypt::verify` accepts the password against it. The call
/// fails only where no salt can be had.
#[verifier::external_body]
fn bcrypt_hash(password: &str) -> (outcome: Result<String, bcrypt::BcryptError>)
    ensures
        outcome matches Ok(hashed) ==> hashed@.len() == 60 && accepts(hashed@, password@),
{
    bcrypt::hash(password, bcrypt::DEFAULT_COST)
}

/// Whether `password` is the one that `hashed` was made from. A stored text
/// that is no hash matches nothing.
pub fn verify_password(password: &str, hashed: &str) -> (ok: bool)
    ensures
        ok == accepts(hashed@, password@),
{
    match bcrypt_verify(password, hashed) {
        Ok(same) => same,
        Err(_) => false,
    }
}

/// Hashes a password for storage; `None` where hashing failed.
pub fn hash_password(password: &str) -> (hashed: Option<String>)
    ensures
        hashed matches Some(h) ==> h@.len() == 60 && accepts(h@, password@),
{
    match bcrypt_hash(password) {
        Ok(h) => Some(h),
        Err(_) => None,
    }
}

} // verus!
