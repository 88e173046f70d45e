//! `/users`: signup and profile changes of user accounts.

use vstd::prelude::*;
use crate::notifications::{Notification, email_body, signed_up_title, signup_notice};
use crate::routes::sessions::{Credentials, signup_identity, signup_identity_spec};
use crate::validation::{FieldError, Refusal, check_length, error_views, length_check, uniqueness_error, uniqueness_field};

verus! {

/// A change to a user's profile.
pub struct UpdateUserRequest {
    pub name: String,
    pub emails_enabled: bool,
}

/// A user's signup.
pub struct CreateUserRequest {
    pub name: String,
    pub credentials: Credentials,
}

/// Checks a name: two characters or more.
fn check_name(name: &str) -> (r: Vec<FieldError>)
    ensures
        error_views(r@) == length_check("name"@, name@, 2),
        name@.len() < 2 ==> error_views(r@).contains(("name"@, "length"@)),
        r@.len() == 0 <==> name@.len() >= 2,
{
    let mut errors: Vec<FieldError> = Vec::new();
    check_length(&mut errors, "name", name, 2);
    assert(error_views(errors@) =~= length_check("name"@, name@, 2));
    errors
}

impl UpdateUserRequest {
    /// Checks the profile change: a name of two characters or more.
    pub fn validate(&self) -> (r: Vec<FieldError>)
        ensures
            error_views(r@) == length_check("name"@, self.name@, 2),
            self.name@.len() < 2 ==> error_views(r@).contains(("name"@, "length"@)),
            r@.len() == 0 <==> self.name@.len() >= 2,
    {
        check_name(self.name.as_str())
    }
}

impl CreateUserRequest {
    /// Checks the signup: a name of two characters or more.
    pub fn validate(&self) -> (r: Vec<FieldError>)
        ensures
            error_views(r@) == length_check("name"@, self.name@, 2),
            self.name@.len() < 2 ==> error_views(r@).contains(("name"@, "length"@)),
            r@.len() == 0 <==> self.name@.len() >= 2,
    {
        check_name(self.name.as_str())
    }
}

/// The failure reported when saving a user violates a unique constraint:
/// `email` (code `uniqueness`) for `users_email_key`, `None` (an internal
/// error) for any other.
pub fn user_uniqueness_error(constraint: Option<&str>) -> (r: Option<FieldError>)
    ensures
        match constraint {
            Some(c) => if c@ == "users_email_key"@ {
                r matches Some(e) && e.field@ == "email"@ && e.code@ == "uniqueness"@
            } else {
                r is None
            },
            None => r is None,
        },
{
    let rules: [(&str, &'static str); 1] = [("users_email_key", "email")];
    let sl = rules.as_slice();
    let r = uniqueness_error(constraint, sl);
    proof {
        let s = rules@;
        assert(sl@ == s);
        assert(s.drop_first().len() == 0);
        if let Some(c) = constraint {
            assert(uniqueness_field(Some(c@), s.drop_first()) is None);
        }
    }
    r
}

/// The notice sent to sales when a user signs up.
pub fn user_signup_notice(name: &str, email: &str) -> (r: Notification)
    ensures
        r.subject@ == "Someone has signed up!"@,
        r.title@ == signed_up_title(name@),
        r.body@ == email_body(email@),
        r.cta is None,
        r.unsubscribe_url is None,
{
    signup_notice("Someone has signed up!", name, email)
}

/// What a user's signup stores once its checks pass.
pub struct UserSignupPlan {
    pub email: String,
    /// The password to hash and store, for a signup with one.
    pub password: Option<String>,
}

/// The steps of a user's signup before the database: a signup that fails
/// its checks is answered with the failures; one whose token does not
/// decode (`subject` is the decoded subject, if any) is refused with 422.
pub fn plan_user_signup(req: &CreateUserRequest, subject: Option<String>) -> (r: Result<UserSignupPlan, Refusal>)
    ensures
        length_check("name"@, req.name@, 2).len() > 0 ==> (r matches Err(Refusal::Invalid(e)) && error_views(e@)
            == length_check("name"@, req.name@, 2)),
        length_check("name"@, req.name@, 2).len() == 0 ==> match signup_identity_spec(
            req.credentials,
            match subject {
                Some(x) => Some(x@),
                None => None,
            },
        ) {
            Err(_) => r matches Err(Refusal::Status(s)) && s == 422,
            Ok((email, password)) => r matches Ok(plan) && plan.email@ == email && match (plan.password, password) {
                (Some(x), Some(y)) => x@ == y,
                (None, None) => true,
                _ => false,
            },
        },
{
    let errors = req.validate();
    if errors.len() > 0 {
        return Err(Refusal::Invalid(errors));
    }
    match signup_identity(&req.credentials, subject) {
        Err(_) => Err(Refusal::Status(422)),
        Ok((email, password)) => Ok(UserSignupPlan { email, password }),
    }
}

} // verus!
