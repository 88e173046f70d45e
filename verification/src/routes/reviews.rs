//! `/reviews`: reviews requested by players, listed and shown to their owner,
//! with a notice to the coaches when one is made.

use vstd::prelude::*;
use crate::notifications::Notification;
use crate::validation::{FieldError, check_game, check_length, error_views, game_check, length_check};

verus! {

/// A player's request for a review of a recording.
pub struct CreateReviewRequest {
    pub recording_id: u128,
    pub title: String,
    pub notes: String,
    pub game_id: String,
}

/// The failures of a review request: a title, and a known game id.
pub open spec fn create_review_errors(req: CreateReviewRequest, games: Seq<&str>) -> Seq<(Seq<char>, Seq<char>)> {
    length_check("title"@, req.title@, 1) + game_check("game_id"@, req.game_id@, games)
}

impl CreateReviewRequest {
    /// Checks a review request against the known games.
    pub fn validate(&self, games: &[&str]) -> (r: Vec<FieldError>)
        ensures
            error_views(r@) == create_review_errors(*self, games@),
            self.title@.len() < 1 ==> error_views(r@).contains(("title"@, "length"@)),
            !crate::validation::known_game(self.game_id@, games@) ==> error_views(r@).contains(("game_id"@, "Game ID is not valid"@)),
            r@.len() == 0 <==> (self.title@.len() >= 1 && crate::validation::known_game(self.game_id@, games@)),
    {
        let mut errors: Vec<FieldError> = Vec::new();
        check_length(&mut errors, "title", self.title.as_str(), 1);
        check_game(&mut errors, "game_id", self.game_id.as_str(), games);
        assert(error_views(errors@) =~= create_review_errors(*self, games@));
        errors
    }
}

/// Whether a review may be shown to the one asking: only to the player who
/// owns it; anyone else is refused (403 Forbidden).
pub fn may_show(owner_id: u128, requester_id: u128) -> (r: bool)
    ensures
        r == (owner_id == requester_id),
{
    owner_id == requester_id
}

/// The notice sent to every coach when a review is requested.
pub fn new_vods_notice() -> (r: Notification)
    ensures
        r.subject@ == "New VODs are available"@,
        r.title@ == "There are new VODs available for review!"@,
        r.body@ == "Go to your dashboard to start analyzing them."@,
        r.cta matches Some(c) && c.0@ == "View Available VODs"@ && c.1@ == "https://ranklab.gg/dashboard"@,
{
    Notification {
        subject: String::from_str("New VODs are available"),
        title: String::from_str("There are new VODs available for review!"),
        body: String::from_str("Go to your dashboard to start analyzing them."),
        cta: Some((String::from_str("View Available VODs"), String::from_str("https://ranklab.gg/dashboard"))),
        unsubscribe_url: None,
    }
}

} // verus!
