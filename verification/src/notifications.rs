//! The content of the e-mails the service sends with its `notification`
//! template: a subject, a title, a body and, for some, a button with a link.

use vstd::prelude::*;

verus! {

/// The template data of one notification e-mail.
pub struct Notification {
    pub subject: String,
    pub title: String,
    pub body: String,
    /// The button's label and link, where the e-mail has a button.
    pub cta: Option<(String, String)>,
    /// The link that turns notifications off, where the e-mail has one.
    pub unsubscribe_url: Option<String>,
}

/// The address that receives the signup notices.
pub open spec fn sales_address() -> Seq<char> {
    "sales@ranklab.gg"@
}

/// The address that receives the signup notices.
pub fn sales_recipient() -> (r: String)
    ensures
        r@ == sales_address(),
{
    String::from_str("sales@ranklab.gg")
}

/// The title of a signup notice.
pub open spec fn signed_up_title(name: Seq<char>) -> Seq<char> {
    name + " has signed up to Ranklab"@
}

/// The body of a signup notice.
pub open spec fn email_body(email: Seq<char>) -> Seq<char> {
    "Their email is: "@ + email
}

/// The notice sent to sales when someone signs up: `subject`, then
/// `<name> has signed up to Ranklab` and `Their email is: <email>`.
pub fn signup_notice(subject: &str, name: &str, email: &str) -> (r: Notification)
    ensures
        r.subject@ == subject@,
        r.title@ == signed_up_title(name@),
        r.body@ == email_body(email@),
        r.cta is None,
        r.unsubscribe_url is None,
{
    Notification {
        subject: String::from_str(subject),
        title: String::from_str(name).concat(" has signed up to Ranklab"),
        body: String::from_str("Their email is: ").concat(email),
        cta: None,
        unsubscribe_url: None,
    }
}

/// The link in a password-reset e-mail: `<web_host>/password/reset?token=<token>`.
pub open spec fn reset_link(web_host: Seq<char>, token: Seq<char>) -> Seq<char> {
    web_host + "/password/reset?token="@ + token
}

/// Whether a notification is the password-reset e-mail with the given link
/// on its button.
pub open spec fn is_reset_email(n: Notification, link: Seq<char>) -> bool {
    &&& n.subject@ == "Reset Your Password"@
    &&& n.title@ == "You requested to reset your password"@
    &&& n.body@ == "Click the button below to reset it"@
    &&& n.cta matches Some(c) && c.0@ == "Reset Password"@ && c.1@ == link
    &&& n.unsubscribe_url is None
}

/// The password-reset e-mail with the given link on its button.
pub fn reset_password_email(link: String) -> (r: Notification)
    ensures
        is_reset_email(r, link@),
{
    Notification {
        subject: String::from_str("Reset Your Password"),
        title: String::from_str("You requested to reset your password"),
        body: String::from_str("Click the button below to reset it"),
        cta: Some((String::from_str("Reset Password"), link)),
        unsubscribe_url: None,
    }
}

/// Whether a reset e-mail is delivered under a run profile: in every
/// profile but `test`.
pub fn delivers_reset_email(profile: &str) -> (r: bool)
    ensures
        r == (profile@ != "test"@),
{
    !crate::text::str_eq(profile, "test")
}

/// Whether a signup notice is delivered under a run profile: only in
/// `release`.
pub fn delivers_signup_notice(profile: &str) -> (r: bool)
    ensures
        r == (profile@ == "release"@),
{
    crate::text::str_eq(profile, "release")
}

} // verus!
