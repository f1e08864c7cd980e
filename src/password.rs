use vstd::prelude::*;

use crate::error::Error;

verus! {

/// What `bcrypt::verify` answers for a password and a stored digest:
/// whether they match, or `None` where the digest is malformed.
pub uninterp spec fn bcrypt_verdict(pwd: Seq<char>, digest: Seq<char>) -> Option<bool>;

/// Relies on `bcrypt::hash` at `bcrypt::DEFAULT_COST`. The salt is drawn at
/// random, so only this is known of a digest it returns: `bcrypt::verify`
/// accepts it for the same password.
#[verifier::external_body]
fn bcrypt_hash(pwd: &str) -> (r: Result<String, bcrypt::BcryptError>)
    ensures
        r matches Ok(h) ==> bcrypt_verdict(pwd@, h@) == Some(true),
{
    bcrypt::hash(pwd, bcrypt::DEFAULT_COST)
}

/// Relies on `bcrypt::verify`: it checks `pwd` against `digest` and fails
/// only where the digest cannot be read.
#[verifier::external_body]
fn bcrypt_verify(pwd: &str, digest: &str) -> (r: Result<bool, bcrypt::BcryptError>)
    ensures
        match bcrypt_verdict(pwd@, digest@) {
            Some(b) => r matches Ok(x) && x == b,
            None => r is Err,
        },
{
    bcrypt::verify(pwd, digest)
}

/// Hashes a password at the fixed cost; a digest it returns verifies
/// against the same password.
pub fn hash_password(pwd: &str) -> (r: Result<String, Error>)
    ensures
        r matches Ok(h) ==> bcrypt_verdict(pwd@, h@) == Some(true),
        r matches Err(e) ==> e == Error::EncryptPasswordError,
{
    match bcrypt_hash(pwd) {
        Ok(h) => Ok(h),
        Err(_) => Err(Error::EncryptPasswordError),
    }
}

/// Checks a password against a stored digest; a malformed digest is the
/// only failure.
pub fn check_password(pwd: &str, digest: &str) -> (r: Result<bool, Error>)
    ensures
        match bcrypt_verdict(pwd@, digest@) {
            Some(b) => r == Ok::<bool, Error>(b),
            None => r == Err::<bool, Error>(Error::VerifyPasswordError),
        },
{
    match bcrypt_verify(pwd, digest) {
        Ok(b) => Ok(b),
        Err(_) => Err(Error::VerifyPasswordError),
    }
}

} // verus!
