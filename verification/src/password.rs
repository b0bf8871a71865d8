//! The credential codec: a slow, salted one-way hash of a password, and
//! the check of a password against such a digest.

use crate::errors::ApiError;
use bcrypt::BcryptError;
use vstd::prelude::*;
use vstd::string::*;

verus! {

/// `bcrypt::BcryptError`, taken as an opaque type.
#[verifier::external_type_specification]
#[verifier::external_body]
pub struct ExBcryptError(BcryptError);

/// What `bcrypt::verify` answers for a password and a digest: whether the
/// password is the one the digest was made from, or `None` where the digest
/// is malformed.
pub uninterp spec fn password_matches(password: Seq<char>, digest: Seq<char>) -> Option<bool>;

/// `bcrypt::hash` at the default cost. The salt is random, so the digest
/// is not named; the contract claims only that `bcrypt::verify` accepts the
/// password against any digest that comes back.
#[verifier::external_body]
fn bcrypt_hash(password: &str) -> (r: Result<String, BcryptError>)
    ensures
        r matches Ok(digest) ==> password_matches(password@, digest@) == Some(true),
{
    bcrypt::hash(password, bcrypt::DEFAULT_COST)
}

/// `bcrypt::verify`: recomputes the hash with the digest's own salt and cost
/// and compares; an error where the digest cannot be read.
#[verifier::external_body]
fn bcrypt_verify(password: &str, digest: &str) -> (r: Result<bool, BcryptError>)
    ensures
        r matches Ok(same) ==> password_matches(password@, digest@) == Some(same),
        r is Err ==> password_matches(password@, digest@) is None,
{
    bcrypt::verify(password, digest)
}

/// The text of a `BcryptError`, by its `Display`.
#[verifier::external_body]
fn bcrypt_error_text(e: &BcryptError) -> String {
    e.to_string()
}

/// Whether a message is the given label followed by some detail.
pub open spec fn labelled(message: Seq<char>, label: Seq<char>) -> bool {
    message.len() >= label.len() && message.subrange(0, label.len() as int) == label
}

/// Hashes a password. Two calls on one password give different digests;
/// each digest verifies against the password it was made from. Fails with
/// an internal error where the hashing primitive fails.
pub fn hash(password: &str) -> (r: Result<String, ApiError>)
    ensures
        match r {
            Ok(digest) => password_matches(password@, digest@) == Some(true),
            Err(ApiError::InternalError(msg)) => labelled(msg@, "Password hashing failed: "@),
            Err(_) => false,
        },
{
    match bcrypt_hash(password) {
        Ok(digest) => Ok(digest),
        Err(e) => {
            let label = String::from_str("Password hashing failed: ");
            let detail = bcrypt_error_text(&e);
            let msg = label.concat(detail.as_str());
            assert(msg@.subrange(0, label@.len() as int) =~= label@);
            Err(ApiError::InternalError(msg))
        },
    }
}

/// What [`verify`] returns, given what the comparison answered.
pub open spec fn verify_result(answer: Option<bool>, r: Result<bool, ApiError>) -> bool {
    match answer {
        Some(same) => r == Ok::<bool, ApiError>(same),
        None => r matches Err(ApiError::InternalError(msg)) && labelled(
            msg@,
            "Password verification failed: "@,
        ),
    }
}

/// Checks a password against a digest: `Ok(true)` where it is the password
/// the digest was made from, `Ok(false)` where it is not, an internal error
/// exactly where the digest is malformed.
pub fn verify(password: &str, digest: &str) -> (r: Result<bool, ApiError>)
    ensures
        verify_result(password_matches(password@, digest@), r),
{
    match bcrypt_verify(password, digest) {
        Ok(same) => Ok(same),
        Err(e) => {
            let label = String::from_str("Password verification failed: ");
            let detail = bcrypt_error_text(&e);
            let msg = label.concat(detail.as_str());
            assert(msg@.subrange(0, label@.len() as int) =~= label@);
            Err(ApiError::InternalError(msg))
        },
    }
}

} // verus!
