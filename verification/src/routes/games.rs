//! `/games`: the games the service covers, each marked as followed or not
//! by the signed-in user.

use vstd::prelude::*;
use crate::text::str_eq;
use crate::validation::{FieldError, check_email, check_length, email_check, error_views, length_check};

verus! {

/// A request for a game to be added.
pub struct CreateGameRequest {
    pub email: String,
    pub name: String,
}

/// The failures of a game request: a valid e-mail and a name.
pub open spec fn create_game_errors(req: CreateGameRequest) -> Seq<(Seq<char>, Seq<char>)> {
    email_check("email"@, req.email@) + length_check("name"@, req.name@, 1)
}

impl CreateGameRequest {
    /// Checks a game request.
    pub fn validate(&self) -> (r: Vec<FieldError>)
        ensures
            error_views(r@) == create_game_errors(*self),
            !crate::validation::email_valid_spec(self.email@) ==> error_views(r@).contains(("email"@, "email"@)),
            self.name@.len() < 1 ==> error_views(r@).contains(("name"@, "length"@)),
            r@.len() == 0 <==> (crate::validation::email_valid_spec(self.email@) && self.name@.len() >= 1),
    {
        let mut errors: Vec<FieldError> = Vec::new();
        check_email(&mut errors, "email", self.email.as_str());
        check_length(&mut errors, "name", self.name.as_str(), 1);
        assert(error_views(errors@) =~= create_game_errors(*self));
        errors
    }
}

/// Whether a game is among the followed ones.
pub open spec fn is_followed(game_id: Seq<char>, followed: Seq<String>) -> bool {
    exists|j: int| 0 <= j < followed.len() && followed[j]@ == game_id
}

/// For each game, whether the user follows it (`followed` holds the ids of
/// the user's followings; none when no one is signed in).
pub fn followed_flags(games: &[&str], followed: &Vec<String>) -> (r: Vec<bool>)
    ensures
        r@.len() == games@.len(),
        forall|i: int| 0 <= i < r@.len() ==> #[trigger] r@[i] == is_followed(games@[i]@, followed@),
{
    let mut r: Vec<bool> = Vec::new();
    let mut i: usize = 0;
    while i < games.len()
        invariant
            i <= games.len(),
            r@.len() == i,
            forall|k: int| 0 <= k < i ==> #[trigger] r@[k] == is_followed(games@[k]@, followed@),
        decreases games.len() - i,
    {
        let mut found = false;
        let mut j: usize = 0;
        while j < followed.len()
            invariant
                i < games.len(),
                j <= followed.len(),
                found == exists|m: int| 0 <= m < j && followed@[m]@ == games@[i as int]@,
            decreases followed.len() - j,
        {
            if str_eq(followed[j].as_str(), games[i]) {
                found = true;
            }
            j = j + 1;
        }
        r.push(found);
        i = i + 1;
    }
    r
}

} // verus!
