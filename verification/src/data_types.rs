//! The states that reviews and uploaded media pass through.

use vstd::prelude::*;

verus! {

/// The life cycle of a review: paid for, taken up by the coach as a draft,
/// published, and finally accepted by the player or refunded before the
/// coach started.
#[derive(Clone, Copy, Debug, PartialEq, Eq, Structural)]
pub enum ReviewState {
    AwaitingPayment,
    AwaitingReview,
    Draft,
    Published,
    Accepted,
    Refunded,
}

/// The processing state of an uploaded recording, audio or avatar.
#[derive(Clone, Copy, Debug, PartialEq, Eq, Structural)]
pub enum MediaState {
    /// Created; the upload has not arrived yet.
    Created,
    /// Uploaded, waiting for processing.
    Uploaded,
    /// Processed and ready.
    Processed,
}

/// The steps a review may take: the coach starts a review awaiting one,
/// publishes a draft, the player accepts a published review or cancels one
/// still awaiting review.
pub open spec fn review_step(from: ReviewState, to: ReviewState) -> bool {
    ||| from == ReviewState::AwaitingReview && to == ReviewState::Draft
    ||| from == ReviewState::Draft && to == ReviewState::Published
    ||| from == ReviewState::Published && to == ReviewState::Accepted
    ||| from == ReviewState::AwaitingReview && to == ReviewState::Refunded
}

/// Whether a review state admits no further step.
pub open spec fn review_final(s: ReviewState) -> bool {
    s == ReviewState::Accepted || s == ReviewState::Refunded
}

/// Final states have no step out of them.
pub proof fn lemma_final_states_stay(from: ReviewState, to: ReviewState)
    requires
        review_final(from),
    ensures
        !review_step(from, to),
{
}

/// A game a user plays, with their skill level in it.
pub struct UserGame {
    pub game_id: String,
    pub skill_level: i16,
}

/// Whether one of a user's games has the given id.
pub open spec fn plays(games: Seq<UserGame>, game_id: Seq<char>) -> bool {
    exists|i: int| 0 <= i < games.len() && games[i].game_id@ == game_id
}

/// Whether one of a user's games has the given id.
pub fn plays_game(games: &Vec<UserGame>, game_id: &str) -> (r: bool)
    ensures
        r == plays(games@, game_id@),
{
    let mut i: usize = 0;
    while i < games.len()
        invariant
            i <= games.len(),
            forall|k: int| 0 <= k < i ==> games@[k].game_id@ != game_id@,
        decreases games.len() - i,
    {
        if crate::text::str_eq(games[i].game_id.as_str(), game_id) {
            return true;
        }
        i = i + 1;
    }
    false
}

} // verus!
