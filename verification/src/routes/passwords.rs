//! `/passwords`: password-reset links for user accounts.

use vstd::prelude::*;
use crate::notifications::{Notification, delivers_reset_email, is_reset_email, reset_link, reset_password_email};
use crate::secrets::{bcrypt_verify_spec, hash_password};

verus! {

/// A request for a password-reset link.
pub struct CreatePasswordRequest {
    pub email: String,
}

/// A new password, sent with a one-time token.
pub struct UpdatePasswordRequest {
    pub password: String,
}

impl UpdatePasswordRequest {
    /// The hash stored for the new password; `None` when no salt could be
    /// drawn.
    pub fn hashed(&self) -> (r: Option<String>)
        ensures
            r matches Some(h) ==> bcrypt_verify_spec(self.password@, h@) == Some(true),
    {
        hash_password(self.password.as_str())
    }
}

/// The scope of the one-time tokens that reset a password.
pub fn reset_password_scope() -> (r: &'static str)
    ensures
        r@ == "reset_password"@,
{
    "reset_password"
}

/// The user a reset request names: their id and name.
pub struct ResetUser {
    pub id: u128,
    pub name: String,
}

/// The one-time token stored for a reset: its value, its scope and the user
/// it belongs to.
pub struct UserResetToken {
    pub value: String,
    pub scope: &'static str,
    pub user_id: u128,
}

/// What answering a reset request does.
pub struct PasswordResetPlan {
    /// The HTTP status of the answer.
    pub status: u16,
    /// The token to store, for a known user.
    pub token: Option<UserResetToken>,
    /// The e-mail to send: the address, the recipient's name and the content.
    pub email: Option<(String, String, Notification)>,
    /// Whether the e-mail is delivered (not under the `test` profile); the
    /// token is stored either way.
    pub deliver: bool,
}

/// Plans the answer to a reset request. It is 200 whether or not a user has
/// the e-mail. Only when one has (`user`) is a token with the scope
/// `reset_password` stored for them and the e-mail with the link
/// `<web_host>/password/reset?token=<token>` made for their address and name;
/// it is delivered unless the service runs under the `test` profile.
pub fn plan_password_reset(
    req: &CreatePasswordRequest,
    user: Option<ResetUser>,
    web_host: &str,
    token: String,
    profile: &str,
) -> (r: PasswordResetPlan)
    ensures
        r.status == 200,
        r.token is Some <==> user is Some,
        r.email is Some <==> user is Some,
        r.deliver == (user is Some && profile@ != "test"@),
        user matches Some(u) ==> ({
            &&& r.token matches Some(t)
            &&& t.value@ == token@
            &&& t.scope@ == "reset_password"@
            &&& t.user_id == u.id
            &&& r.email matches Some(e)
            &&& e.0@ == req.email@
            &&& e.1@ == u.name@
            &&& is_reset_email(e.2, reset_link(web_host@, token@))
        }),
{
    match user {
        None => PasswordResetPlan { status: 200, token: None, email: None, deliver: false },
        Some(u) => {
            let link = String::from_str(web_host).concat("/password/reset?token=").concat(token.as_str());
            PasswordResetPlan {
                status: 200,
                token: Some(UserResetToken { value: token, scope: reset_password_scope(), user_id: u.id }),
                email: Some((req.email.clone(), u.name, reset_password_email(link))),
                deliver: delivers_reset_email(profile),
            }
        },
    }
}

} // verus!
