//! `/player/stripe-payment-intents`: the payment for a recording, made once
//! and then described with the recording's title, notes and game.

use vstd::prelude::*;
use crate::data_types::{UserGame, plays, plays_game};
use crate::text::{pair, pair_views};
use crate::validation::{FieldError, check_game, check_length, error_views, game_check, length_check};

verus! {

/// What the client needs to confirm a payment.
pub struct PaymentIntent {
    pub client_secret: String,
}

/// A request for the payment of a recording.
pub struct CreatePaymentIntentMutation {
    pub recording_id: u128,
}

/// The description of the recording being paid for.
pub struct UpdatePaymentIntentMutation {
    pub title: String,
    pub notes: String,
    pub game_id: String,
}

/// The failures of a description: a title and a known game id.
pub open spec fn description_errors(title: Seq<char>, game_id: Seq<char>, games: Seq<&str>) -> Seq<
    (Seq<char>, Seq<char>),
> {
    length_check("title"@, title, 1) + game_check("game_id"@, game_id, games)
}

/// Checks a title and a game id.
pub fn check_description(title: &str, game_id: &str, games: &[&str]) -> (r: Vec<FieldError>)
    ensures
        error_views(r@) == description_errors(title@, game_id@, games@),
        title@.len() < 1 ==> error_views(r@).contains(("title"@, "length"@)),
        !crate::validation::known_game(game_id@, games@) ==> error_views(r@).contains(("game_id"@, "Game ID is not valid"@)),
        r@.len() == 0 <==> (title@.len() >= 1 && crate::validation::known_game(game_id@, games@)),
{
    let mut errors: Vec<FieldError> = Vec::new();
    check_length(&mut errors, "title", title, 1);
    check_game(&mut errors, "game_id", game_id, games);
    assert(error_views(errors@) =~= description_errors(title@, game_id@, games@));
    errors
}

/// The parameters of the payment intent for a recording.
pub struct RecordingPaymentParams {
    /// In cents.
    pub amount: i64,
    pub currency: &'static str,
    pub customer: String,
    pub description: &'static str,
    /// Whether Stripe picks the payment methods.
    pub automatic_payment_methods: bool,
    /// The payment methods allowed, where they are given.
    pub payment_method_types: Vec<&'static str>,
    /// The method is kept for later payments made while the player is present.
    pub setup_future_usage: &'static str,
}

/// The payment for a recording here: ten dollars, by card, from the player's
/// customer, described as `Recording payment`, its method kept for later
/// payments made on session.
pub fn recording_payment_params(customer_id: &str) -> (r: RecordingPaymentParams)
    ensures
        r.amount == 1000,
        r.currency@ == "usd"@,
        r.customer@ == customer_id@,
        r.description@ == "Recording payment"@,
        !r.automatic_payment_methods,
        r.payment_method_types@.len() == 1 && r.payment_method_types@[0]@ == "card"@,
        r.setup_future_usage@ == "on_session"@,
{
    let mut types: Vec<&'static str> = Vec::new();
    types.push("card");
    RecordingPaymentParams {
        amount: 1000,
        currency: "usd",
        customer: String::from_str(customer_id),
        description: "Recording payment",
        automatic_payment_methods: false,
        payment_method_types: types,
        setup_future_usage: "on_session",
    }
}

/// The metadata that describes a payment: its title, notes and game.
pub open spec fn description_metadata(title: Seq<char>, notes: Seq<char>, game_id: Seq<char>) -> Seq<
    (Seq<char>, Seq<char>),
> {
    seq![("title"@, title), ("notes"@, notes), ("game_id"@, game_id)]
}

impl UpdatePaymentIntentMutation {
    /// Checks the description against the known games.
    pub fn validate(&self, games: &[&str]) -> (r: Vec<FieldError>)
        ensures
            error_views(r@) == description_errors(self.title@, self.game_id@, games@),
            self.title@.len() < 1 ==> error_views(r@).contains(("title"@, "length"@)),
            !crate::validation::known_game(self.game_id@, games@) ==> error_views(r@).contains(("game_id"@, "Game ID is not valid"@)),
            r@.len() == 0 <==> (self.title@.len() >= 1 && crate::validation::known_game(self.game_id@, games@)),
    {
        check_description(self.title.as_str(), self.game_id.as_str(), games)
    }

    /// Decides a checked description of a recording's payment: refused
    /// (400) when the game is not one the player plays or the recording has
    /// no payment yet; else the metadata to set on the payment.
    pub fn plan(&self, player_games: &Vec<UserGame>, has_payment: bool) -> (r: Result<Vec<(String, String)>, u16>)
        ensures
            !plays(player_games@, self.game_id@) ==> r == Err::<Vec<(String, String)>, u16>(400),
            plays(player_games@, self.game_id@) && !has_payment ==> r == Err::<Vec<(String, String)>, u16>(400),
            plays(player_games@, self.game_id@) && has_payment ==> (r matches Ok(m) && pair_views(m@)
                == description_metadata(self.title@, self.notes@, self.game_id@)),
    {
        if !plays_game(player_games, self.game_id.as_str()) {
            return Err(400);
        }
        if !has_payment {
            return Err(400);
        }
        let mut m: Vec<(String, String)> = Vec::new();
        m.push(pair("title", self.title.as_str()));
        m.push(pair("notes", self.notes.as_str()));
        m.push(pair("game_id", self.game_id.as_str()));
        assert(pair_views(m@) =~= description_metadata(self.title@, self.notes@, self.game_id@));
        Ok(m)
    }
}

} // verus!
