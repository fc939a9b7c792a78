//! Password hashing and checking with bcrypt.

use vstd::prelude::*;
use crate::error::AppError;

verus! {

/// `bcrypt::BcryptError`, carried through as an opaque value.
#[verifier::external_type_specification]
#[verifier::external_body]
pub struct ExBcryptError(bcrypt::BcryptError);

/// What `bcrypt::verify` returns for a password and a stored digest:
/// `Some(matches)` where it can read the digest, `None` where it reports an
/// error.
pub uninterp spec fn bcrypt_verify_result(password: Seq<char>, digest: Seq<char>) -> Option<bool>;

/// Calls `bcrypt::hash` at the crate's default cost, which draws a fresh
/// random salt on every call.
///
/// Trusted: a digest that it returns is one that `bcrypt::verify` can read,
/// whatever password it is held against, and against which it accepts the
/// same password (`verify` reads cost and salt back from the digest and
/// repeats the computation). Nothing is said of the digest's text, which
/// differs from call to call, nor of when the call fails.
#[verifier::external_body]
fn bcrypt_hash(password: &str) -> (outcome: Result<String, bcrypt::BcryptError>)
    ensures
        outcome matches Ok(digest) ==> bcrypt_verify_result(password@, digest@) == Some(true),
        outcome matches Ok(digest) ==> forall|other: Seq<char>| #[trigger]
            bcrypt_verify_result(other, digest@) is Some,
{
    bcrypt::hash(password, bcrypt::DEFAULT_COST)
}

/// Calls `bcrypt::verify`.
///
/// Trusted: the outcome is a function of the two texts alone, the one that
/// `bcrypt_verify_result` names.
#[verifier::external_body]
fn bcrypt_verify(password: &str, digest: &str) -> (outcome: Result<bool, bcrypt::BcryptError>)
    ensures
        match outcome {
            Ok(matches) => bcrypt_verify_result(password@, digest@) == Some(matches),
            Err(_) => bcrypt_verify_result(password@, digest@) is None,
        },
{
    bcrypt::verify(password, digest)
}

/// What the service makes of a hashing attempt: the digest, or an internal
/// error whatever the cause.
pub fn digest_or_internal_error(outcome: Result<String, bcrypt::BcryptError>) -> (result: Result<
    String,
    AppError,
>)
    ensures
        match outcome {
            Ok(digest) => result == Ok::<String, AppError>(digest),
            Err(_) => result == Err::<String, AppError>(AppError::InternalServerError),
        },
{
    match outcome {
        Ok(digest) => Ok(digest),
        Err(_) => Err(AppError::InternalServerError),
    }
}

/// What the service makes of a check against a stored digest: whether the
/// password matches, or an internal error where the digest could not be read.
/// A mismatch is an answer, not an error.
pub fn match_or_internal_error(outcome: Result<bool, bcrypt::BcryptError>) -> (result: Result<
    bool,
    AppError,
>)
    ensures
        match outcome {
            Ok(matches) => result == Ok::<bool, AppError>(matches),
            Err(_) => result == Err::<bool, AppError>(AppError::InternalServerError),
        },
{
    match outcome {
        Ok(matches) => Ok(matches),
        Err(_) => Err(AppError::InternalServerError),
    }
}

/// What `verify_password` returns for a password and a stored digest.
pub open spec fn password_check(password: Seq<char>, digest: Seq<char>) -> Result<bool, AppError> {
    match bcrypt_verify_result(password, digest) {
        Some(matches) => Ok(matches),
        None => Err(AppError::InternalServerError),
    }
}

/// Hashes a password with a fresh random salt. Any text is a valid
/// password.
///
/// A digest that is returned verifies against the same password, and a
/// check of any other password against it gives an answer, never an error.
/// The only error is `InternalServerError`.
pub fn hash_password(password: &str) -> (result: Result<String, AppError>)
    ensures
        match result {
            Ok(digest) => {
                &&& password_check(password@, digest@) == Ok::<bool, AppError>(true)
                &&& forall|other: Seq<char>| #[trigger] password_check(other, digest@) is Ok
            },
            Err(error) => error == AppError::InternalServerError,
        },
{
    let outcome = bcrypt_hash(password);
    proof {
        if outcome is Ok {
            let digest = outcome->Ok_0@;
            assert forall|other: Seq<char>| #[trigger] password_check(other, digest) is Ok by {
                assert(bcrypt_verify_result(other, digest) is Some);
            }
        }
    }
    digest_or_internal_error(outcome)
}

/// Checks a password against a stored digest: `Ok(true)` on a match,
/// `Ok(false)` on a mismatch, `InternalServerError` where the digest is not a
/// bcrypt digest.
pub fn verify_password(password: &str, hash: &str) -> (result: Result<bool, AppError>)
    ensures
        result == password_check(password@, hash@),
{
    match_or_internal_error(bcrypt_verify(password, hash))
}

} // verus!
