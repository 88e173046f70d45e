//! Password hashes (the `bcrypt` crate) and the random one-time tokens sent
//! in password-reset links (the `rand` crate).

use vstd::prelude::*;
use rand::distributions::DistString;

verus! {

/// What `bcrypt::verify` gives for a password and a stored hash: `None` when
/// the hash cannot be read (its error), else whether the password matches.
pub uninterp spec fn bcrypt_verify_spec(password: Seq<char>, hash: Seq<char>) -> Option<bool>;

/// `bcrypt::verify`: checks a password against a stored hash. The result is
/// named by `bcrypt_verify_spec`; the error's kind is dropped.
#[verifier::external_body]
pub(crate) fn bcrypt_verify(password: &str, hash: &str) -> (r: Option<bool>)
    ensures
        r == bcrypt_verify_spec(password@, hash@),
{
    bcrypt::verify(password, hash).ok()
}

/// `bcrypt::hash` at `bcrypt::DEFAULT_COST`: hashes a password with a fresh
/// random salt, so which hash comes out is chance. `None` when the operating
/// system gives no random bytes for the salt. The crate writes the hash as
/// `$2b$12$` and the salt and digest, which `bcrypt::verify` reads back: it
/// recomputes the digest of the same password with the same cost and salt,
/// so a hash that this function returns verifies its password.
#[verifier::external_body]
pub(crate) fn bcrypt_hash(password: &str) -> (r: Option<String>)
    ensures
        r matches Some(h) ==> bcrypt_verify_spec(password@, h@) == Some(true),
{
    bcrypt::hash(password, bcrypt::DEFAULT_COST).ok()
}

/// Whether a character is an ASCII letter or digit.
pub open spec fn is_alphanumeric(c: char) -> bool {
    ('a' <= c && c <= 'z') || ('A' <= c && c <= 'Z') || ('0' <= c && c <= '9')
}

/// `rand::distributions::Alphanumeric.sample_string` with the thread's
/// generator: `len` characters, each drawn from `A-Z`, `a-z` and `0-9`
/// (the crate's `GEN_ASCII_STR_CHARSET`). Which ones is chance.
#[verifier::external_body]
pub(crate) fn random_alphanumeric(len: usize) -> (r: String)
    ensures
        r@.len() == len,
        forall|i: int| 0 <= i < r@.len() ==> is_alphanumeric(#[trigger] r@[i]),
{
    rand::distributions::Alphanumeric.sample_string(&mut rand::thread_rng(), len)
}

/// The length of a one-time token.
pub const ONE_TIME_TOKEN_LEN: usize = 16;

/// A fresh one-time token: sixteen random ASCII letters and digits.
pub fn new_one_time_token() -> (r: String)
    ensures
        r@.len() == 16,
        forall|i: int| 0 <= i < r@.len() ==> is_alphanumeric(#[trigger] r@[i]),
{
    random_alphanumeric(ONE_TIME_TOKEN_LEN)
}

/// Why a password was refused.
#[derive(Clone, Copy, Debug, PartialEq, Eq, Structural)]
pub enum PasswordError {
    /// The stored hash could not be read (422 Unprocessable Entity).
    UnreadableHash,
    /// The password does not match (404 Not Found).
    Mismatch,
}

/// The outcome of checking a password, given what `bcrypt::verify` said.
pub open spec fn password_outcome(verified: Option<bool>) -> Result<(), PasswordError> {
    match verified {
        None => Err(PasswordError::UnreadableHash),
        Some(false) => Err(PasswordError::Mismatch),
        Some(true) => Ok(()),
    }
}

/// Decides the outcome of a password check from the verifier's answer.
pub fn password_result(verified: Option<bool>) -> (r: Result<(), PasswordError>)
    ensures
        r == password_outcome(verified),
{
    match verified {
        None => Err(PasswordError::UnreadableHash),
        Some(false) => Err(PasswordError::Mismatch),
        Some(true) => Ok(()),
    }
}

/// Checks a password against the stored hash of an account.
pub fn check_password(password: &str, hash: &str) -> (r: Result<(), PasswordError>)
    ensures
        r == password_outcome(bcrypt_verify_spec(password@, hash@)),
{
    let verified = bcrypt_verify(password, hash);
    password_result(verified)
}

/// Hashes a new password for storage; `None` when no salt could be drawn.
pub fn hash_password(password: &str) -> (r: Option<String>)
    ensures
        r matches Some(h) ==> bcrypt_verify_spec(password@, h@) == Some(true),
{
    bcrypt_hash(password)
}

} // verus!
