//! `/claims/players`: a player profile for a signed-in identity.

use vstd::prelude::*;
use crate::data_types::UserGame;
use crate::validation::{FieldError, check_length, error_views, length_check};

verus! {

/// A new player profile.
pub struct CreatePlayerRequest {
    pub name: String,
    pub games: Vec<UserGame>,
}

/// The failures of a new profile: a name of two characters or more, and at
/// least one game.
pub open spec fn create_player_errors(req: CreatePlayerRequest) -> Seq<(Seq<char>, Seq<char>)> {
    length_check("name"@, req.name@, 2) + if req.games@.len() < 1 {
        seq![("games"@, "length"@)]
    } else {
        seq![]
    }
}

/// A claimed player profile fails its games check exactly when it names no
/// game.
pub proof fn lemma_games_required(req: CreatePlayerRequest)
    ensures
        create_player_errors(req).contains(("games"@, "length"@)) <==> req.games@.len() == 0,
{
    reveal_strlit("games");
    reveal_strlit("name");
    let front = length_check("name"@, req.name@, 2);
    let all = create_player_errors(req);
    assert forall|i: int| 0 <= i < front.len() implies (#[trigger] front[i]).0 != "games"@ by {
        assert(front[i].0 == "name"@);
        assert("name"@[0] != "games"@[0]);
    }
    if req.games@.len() == 0 {
        assert(all[front.len() as int] == ("games"@, "length"@));
    } else {
        assert(all =~= front);
        if all.contains(("games"@, "length"@)) {
            let i = choose|i: int| 0 <= i < all.len() && all[i] == ("games"@, "length"@);
            assert(front[i].0 != "games"@);
        }
    }
}

impl CreatePlayerRequest {
    /// Checks a new profile.
    pub fn validate(&self) -> (r: Vec<FieldError>)
        ensures
            error_views(r@) == create_player_errors(*self),
            self.name@.len() < 2 ==> error_views(r@).contains(("name"@, "length"@)),
            self.games@.len() == 0 ==> error_views(r@).contains(("games"@, "length"@)),
            r@.len() == 0 <==> (self.name@.len() >= 2 && self.games@.len() > 0),
            error_views(r@).contains(("games"@, "length"@)) <==> self.games@.len() == 0,
    {
        let mut errors: Vec<FieldError> = Vec::new();
        check_length(&mut errors, "name", self.name.as_str(), 2);
        if self.games.len() < 1 {
            let ghost before = errors@;
            errors.push(FieldError { field: "games", code: "length" });
            assert(error_views(errors@) =~= error_views(before) + seq![("games"@, "length"@)]);
            proof {
                crate::validation::lemma_appended(error_views(before), seq![("games"@, "length"@)]);
            }
        }
        assert(error_views(errors@) =~= create_player_errors(*self));
        proof {
            lemma_games_required(*self);
        }
        errors
    }
}

} // verus!
