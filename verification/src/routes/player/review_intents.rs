//! `/player/review-intents`: a review being set up for a recording, with
//! the payment made for it.

use vstd::prelude::*;
use crate::data_types::{UserGame, plays, plays_game};
use crate::routes::player::stripe_payment_intents::{RecordingPaymentParams, check_description, description_errors};
use crate::validation::{FieldError, error_views};

verus! {

/// A request to set up a review of a recording.
pub struct CreateReviewIntentMutation {
    pub recording_id: u128,
}

/// The description of the review being set up.
pub struct UpdateReviewIntentMutation {
    pub title: String,
    pub notes: String,
    pub game_id: String,
}

impl UpdateReviewIntentMutation {
    /// Checks the description against the known games.
    pub fn validate(&self, games: &[&str]) -> (r: Vec<FieldError>)
        ensures
            error_views(r@) == description_errors(self.title@, self.game_id@, games@),
            self.title@.len() < 1 ==> error_views(r@).contains(("title"@, "length"@)),
            !crate::validation::known_game(self.game_id@, games@) ==> error_views(r@).contains(("game_id"@, "Game ID is not valid"@)),
            r@.len() == 0 <==> (self.title@.len() >= 1 && crate::validation::known_game(self.game_id@, games@)),
    {
        check_description(self.title.as_str(), self.game_id.as_str(), games)
    }

    /// Whether the description may be stored: only for a game the player
    /// plays; otherwise the request is refused (400).
    pub fn allowed_for(&self, player_games: &Vec<UserGame>) -> (r: bool)
        ensures
            r == plays(player_games@, self.game_id@),
    {
        plays_game(player_games, self.game_id.as_str())
    }
}

/// The payment for a review being set up: ten dollars, with the methods
/// Stripe picks, from the player's customer, described as `Recording
/// payment`, its method kept for later payments made on session.
pub fn review_intent_payment_params(customer_id: &str) -> (r: RecordingPaymentParams)
    ensures
        r.amount == 1000,
        r.currency@ == "usd"@,
        r.customer@ == customer_id@,
        r.description@ == "Recording payment"@,
        r.automatic_payment_methods,
        r.payment_method_types@.len() == 0,
        r.setup_future_usage@ == "on_session"@,
{
    RecordingPaymentParams {
        amount: 1000,
        currency: "usd",
        customer: String::from_str(customer_id),
        description: "Recording payment",
        automatic_payment_methods: true,
        payment_method_types: Vec::new(),
        setup_future_usage: "on_session",
    }
}

} // verus!
