//! `/sessions` for user accounts, which may have no password (those made
//! with a token from the identity provider).

use vstd::prelude::*;
use crate::secrets::{bcrypt_verify_spec, bcrypt_verify};

verus! {

/// An e-mail and password to sign in with.
pub struct PasswordCredentials {
    pub email: String,
    pub password: String,
}

/// A token from the identity provider to sign in or up with.
pub struct TokenCredentials {
    pub token: String,
}

/// The two ways of proving who one is.
pub enum Credentials {
    Password(PasswordCredentials),
    Token(TokenCredentials),
}

/// The account details that credentials give for a signup: the e-mail and,
/// with a password, the password. With a token, the e-mail is the subject of
/// its decoded claims (`subject`, `None` when the token does not decode),
/// there is no password, and a token that does not decode is refused (422).
pub open spec fn signup_identity_spec(c: Credentials, subject: Option<Seq<char>>) -> Result<
    (Seq<char>, Option<Seq<char>>),
    u16,
> {
    match c {
        Credentials::Password(p) => Ok((p.email@, Some(p.password@))),
        Credentials::Token(_) => match subject {
            Some(s) => Ok((s, None)),
            None => Err(422),
        },
    }
}

/// Takes the e-mail and password of a signup from its credentials.
pub fn signup_identity(credentials: &Credentials, subject: Option<String>) -> (r: Result<(String, Option<String>), u16>)
    ensures
        match (r, signup_identity_spec(*credentials, match subject {
            Some(s) => Some(s@),
            None => None,
        })) {
            (Ok((e, p)), Ok((es, ps))) => e@ == es && match (p, ps) {
                (Some(x), Some(y)) => x@ == y,
                (None, None) => true,
                _ => false,
            },
            (Err(a), Err(b)) => a == b,
            _ => false,
        },
{
    match credentials {
        Credentials::Password(p) => Ok((p.email.clone(), Some(p.password.clone()))),
        Credentials::Token(_) => match subject {
            Some(s) => Ok((s, None)),
            None => Err(422),
        },
    }
}

/// Whether signing in with a password gives a session, given the stored
/// password hash of the user found for the e-mail: only when the user has a
/// hash, the hash can be read and the password matches.
pub open spec fn password_sign_in_spec(stored: Option<Seq<char>>, password: Seq<char>) -> bool {
    match stored {
        None => false,
        Some(h) => bcrypt_verify_spec(password, h) == Some(true),
    }
}

/// Decides a password sign-in against the user's stored hash, if any.
pub fn create_with_password(credentials: &PasswordCredentials, stored: &Option<String>) -> (r: bool)
    ensures
        r == password_sign_in_spec(
            match stored {
                Some(h) => Some(h@),
                None => None,
            },
            credentials.password@,
        ),
{
    match stored {
        None => false,
        Some(h) => match bcrypt_verify(credentials.password.as_str(), h.as_str()) {
            Some(valid) => valid,
            None => false,
        },
    }
}

/// A user without a password never signs in with one.
pub proof fn lemma_no_password_no_sign_in(password: Seq<char>)
    ensures
        !password_sign_in_spec(None, password),
{
}

} // verus!
