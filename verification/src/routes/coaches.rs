//! `/coaches`: coach profiles made by signed-in users.

use vstd::prelude::*;
use crate::validation::{FieldError, check_email, check_length, email_check, error_views, length_check};

verus! {

/// A new coach profile.
pub struct CreateCoachRequest {
    pub email: String,
    pub name: String,
    pub bio: String,
    pub game_id: u128,
}

/// The failures of a new profile: a valid e-mail, a name and a bio.
pub open spec fn create_coach_errors(req: CreateCoachRequest) -> Seq<(Seq<char>, Seq<char>)> {
    email_check("email"@, req.email@) + length_check("name"@, req.name@, 1) + length_check("bio"@, req.bio@, 1)
}

impl CreateCoachRequest {
    /// Checks a new profile.
    pub fn validate(&self) -> (r: Vec<FieldError>)
        ensures
            error_views(r@) == create_coach_errors(*self),
            !crate::validation::email_valid_spec(self.email@) ==> error_views(r@).contains(("email"@, "email"@)),
            self.name@.len() < 1 ==> error_views(r@).contains(("name"@, "length"@)),
            self.bio@.len() < 1 ==> error_views(r@).contains(("bio"@, "length"@)),
            r@.len() == 0 <==> (crate::validation::email_valid_spec(self.email@) && self.name@.len() >= 1 && self.bio@.len() >= 1),
    {
        let mut errors: Vec<FieldError> = Vec::new();
        check_email(&mut errors, "email", self.email.as_str());
        check_length(&mut errors, "name", self.name.as_str(), 1);
        check_length(&mut errors, "bio", self.bio.as_str(), 1);
        assert(error_views(errors@) =~= create_coach_errors(*self));
        errors
    }
}

} // verus!
