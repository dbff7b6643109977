//! Password hashing and verification, over the bcrypt algorithm.

use vstd::prelude::*;

use crate::error::AuthenticationError;

verus! {

/// The cost factor every password is hashed with.
pub const HASH_COST: u32 = 12;

/// The error type of the bcrypt crate, carried through opaquely.
#[verifier::external_type_specification]
#[verifier::external_body]
pub struct ExBcryptError(bcrypt::BcryptError);

/// Whether `password` is the password a bcrypt hash string `hashed` was
/// derived from. The check is a pure function of the two strings: the
/// salt is read back out of the hash string itself.
pub uninterp spec fn bcrypt_matches(password: Seq<char>, hashed: Seq<char>) -> bool;

/// Whether `hashed` parses as a bcrypt hash string: sixty ASCII
/// characters, a recognised version prefix, a cost within the allowed
/// range, and valid base64 salt and digest parts — a function of the
/// hash string alone.
pub uninterp spec fn bcrypt_hash_wellformed(hashed: Seq<char>) -> bool;

/// Relies on bcrypt::hash: a salted, cost-factored one-way hash. The
/// salt is drawn from the operating system, so the value itself is not
/// promised; but every hash it emits is a well-formed bcrypt string,
/// and recomputing the digest from the same password and the salt read
/// back out of that string reproduces it, so the password it was
/// derived from verifies against it.
#[verifier::external_body]
fn bcrypt_hash_raw(password: &str, cost: u32) -> (r: Result<String, bcrypt::BcryptError>)
    ensures
        r is Ok ==> bcrypt_hash_wellformed(r->Ok_0@) && bcrypt_matches(password@, r->Ok_0@),
{
    bcrypt::hash(password, cost)
}

/// Relies on bcrypt::verify: recomputes the hash from the salt held in
/// `hashed` and compares; the outcome depends on the two arguments
/// alone. It errors exactly when the hash string itself is malformed:
/// the parse of the hash string and the cost-range check are its only
/// error paths.
#[verifier::external_body]
fn bcrypt_verify_raw(password: &str, hashed: &str) -> (r: Result<bool, bcrypt::BcryptError>)
    ensures
        r is Ok ==> r->Ok_0 == bcrypt_matches(password@, hashed@),
        r is Err <==> !bcrypt_hash_wellformed(hashed@),
{
    bcrypt::verify(password, hashed)
}

/// Hashes a password for storage, at the fixed cost factor. On
/// success the result is a well-formed bcrypt hash string that the
/// password verifies against.
pub fn hash_password(password: &str) -> (r: Result<String, AuthenticationError>)
    ensures
        r is Err ==> r->Err_0 == AuthenticationError::Internal,
        r is Ok ==> bcrypt_hash_wellformed(r->Ok_0@) && bcrypt_matches(password@, r->Ok_0@),
{
    match bcrypt_hash_raw(password, HASH_COST) {
        Ok(h) => Ok(h),
        Err(_) => Err(AuthenticationError::Internal),
    }
}

/// Whether `password` matches the stored hash. Fails closed: a
/// malformed hash yields `false`, never an error.
pub fn verify_password(password: &str, hashed: &str) -> (r: bool)
    ensures
        r == (bcrypt_hash_wellformed(hashed@) && bcrypt_matches(password@, hashed@)),
{
    match bcrypt_verify_raw(password, hashed) {
        Ok(b) => b,
        Err(_) => false,
    }
}

} // verus!
