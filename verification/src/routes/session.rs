//! `/sessions` for coach and player accounts: signing in with a password,
//! asking for a password-reset link and setting a new password.

use vstd::prelude::*;
use crate::notifications::{Notification, delivers_reset_email, is_reset_email, reset_link, reset_password_email};
use crate::secrets::{PasswordError, bcrypt_verify_spec, check_password, hash_password, password_outcome};

verus! {

/// The two kinds of account.
#[derive(Clone, Copy, Debug, PartialEq, Eq, Structural)]
pub enum UserType {
    Coach,
    Player,
}

/// The name of an account kind in links: `coach` or `player`.
pub open spec fn user_type_text(t: UserType) -> Seq<char> {
    match t {
        UserType::Coach => "coach"@,
        UserType::Player => "player"@,
    }
}

impl UserType {
    /// The name of the account kind in links.
    pub fn as_str(&self) -> (r: &'static str)
        ensures
            r@ == user_type_text(*self),
    {
        match self {
            UserType::Coach => "coach",
            UserType::Player => "player",
        }
    }
}

/// A sign-in attempt.
pub struct CreateSessionRequest {
    pub email: String,
    pub password: String,
    pub user_type: UserType,
}

/// A signed-in session: its bearer token.
pub struct CreateSessionResponse {
    pub token: String,
}

/// A request for a password-reset link.
pub struct ResetPasswordRequest {
    pub email: String,
    pub user_type: UserType,
}

/// A new password, sent with a one-time token.
pub struct UpdatePasswordRequest {
    pub password: String,
}

impl UpdatePasswordRequest {
    /// The hash stored for the new password; `None` when no salt could be
    /// drawn.
    pub fn hashed(&self) -> (r: Option<String>)
        ensures
            r matches Some(h) ==> bcrypt_verify_spec(self.password@, h@) == Some(true),
    {
        hash_password(self.password.as_str())
    }
}

/// The HTTP status of a refused sign-in.
pub open spec fn sign_in_status(e: PasswordError) -> u16 {
    match e {
        PasswordError::UnreadableHash => 422,
        PasswordError::Mismatch => 404,
    }
}

/// The HTTP status of a refused sign-in: 422 when the stored hash cannot be
/// read, 404 when the password does not match.
pub fn sign_in_error_status(e: PasswordError) -> (r: u16)
    ensures
        r == sign_in_status(e),
{
    match e {
        PasswordError::UnreadableHash => 422,
        PasswordError::Mismatch => 404,
    }
}

/// Checks a sign-in attempt against the stored hash of the account found for
/// its e-mail: `Ok` when the password matches, else the refusal's status.
pub fn sign_in(req: &CreateSessionRequest, stored_hash: &str) -> (r: Result<(), u16>)
    ensures
        r == match password_outcome(bcrypt_verify_spec(req.password@, stored_hash@)) {
            Ok(()) => Ok(()),
            Err(e) => Err(sign_in_status(e)),
        },
{
    match check_password(req.password.as_str(), stored_hash) {
        Ok(()) => Ok(()),
        Err(e) => Err(sign_in_error_status(e)),
    }
}

/// The link of a reset e-mail to a coach or player account:
/// `<web_host>/password/reset?token=<token>&user_type=<coach|player>`.
pub open spec fn account_reset_link(web_host: Seq<char>, token: Seq<char>, t: UserType) -> Seq<char> {
    reset_link(web_host, token) + "&user_type="@ + user_type_text(t)
}

/// Builds the link of a reset e-mail to a coach or player account.
pub fn reset_password_link(web_host: &str, token: &str, user_type: UserType) -> (r: String)
    ensures
        r@ == account_reset_link(web_host@, token@, user_type),
{
    String::from_str(web_host).concat("/password/reset?token=").concat(token).concat("&user_type=").concat(
        user_type.as_str(),
    )
}

/// The account a reset request names: its kind, id and name.
pub struct ResetAccount {
    pub kind: UserType,
    pub id: u128,
    pub name: String,
}

/// The one-time token stored for a reset: its value and the account it
/// belongs to, by the column of the account's kind.
pub struct ResetToken {
    pub value: String,
    pub coach_id: Option<u128>,
    pub player_id: Option<u128>,
}

/// What answering a reset request does.
pub struct ResetPlan {
    /// The HTTP status of the answer.
    pub status: u16,
    /// The token to store, for a known account.
    pub token: Option<ResetToken>,
    /// The e-mail to send: the address, the recipient's name and the content.
    pub email: Option<(String, String, Notification)>,
    /// Whether the e-mail is delivered (not under the `test` profile); the
    /// token is stored either way.
    pub deliver: bool,
}

/// Plans the answer to a reset request. The answer is 200 whether or not an
/// account has the e-mail, so that it discloses nothing. Only when one has
/// (`account`) is a token stored for it (under `coach_id` for a coach, under
/// `player_id` for a player) and the e-mail with the token's link made for
/// the account's name; it is delivered unless the service runs under the
/// `test` profile.
pub fn plan_reset(
    req: &ResetPasswordRequest,
    account: Option<ResetAccount>,
    web_host: &str,
    token: String,
    profile: &str,
) -> (r: ResetPlan)
    ensures
        r.status == 200,
        r.token is Some <==> account is Some,
        r.email is Some <==> account is Some,
        r.deliver == (account is Some && profile@ != "test"@),
        account matches Some(a) ==> ({
            &&& r.token matches Some(t)
            &&& t.value@ == token@
            &&& t.coach_id == (if a.kind == UserType::Coach {
                Some(a.id)
            } else {
                None
            })
            &&& t.player_id == (if a.kind == UserType::Player {
                Some(a.id)
            } else {
                None
            })
            &&& r.email matches Some(e)
            &&& e.0@ == req.email@
            &&& e.1@ == a.name@
            &&& is_reset_email(e.2, account_reset_link(web_host@, token@, a.kind))
        }),
{
    match account {
        None => ResetPlan { status: 200, token: None, email: None, deliver: false },
        Some(a) => {
            let link = reset_password_link(web_host, token.as_str(), a.kind);
            let stored = match a.kind {
                UserType::Coach => ResetToken { value: token, coach_id: Some(a.id), player_id: None },
                UserType::Player => ResetToken { value: token, coach_id: None, player_id: Some(a.id) },
            };
            ResetPlan {
                status: 200,
                token: Some(stored),
                email: Some((req.email.clone(), a.name, reset_password_email(link))),
                deliver: delivers_reset_email(profile),
            }
        },
    }
}

/// After a password is set, signing in with it succeeds: `sign_in` with the
/// same password against the hash that `UpdatePasswordRequest::hashed` (or a
/// signup) stored returns `Ok`.
pub proof fn lemma_new_password_signs_in(password: Seq<char>, stored_hash: Seq<char>)
    requires
        bcrypt_verify_spec(password, stored_hash) == Some(true),
    ensures
        match password_outcome(bcrypt_verify_spec(password, stored_hash)) {
            Ok(()) => true,
            Err(_) => false,
        },
{
}

} // verus!
