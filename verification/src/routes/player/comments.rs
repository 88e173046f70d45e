//! `/player/comments`: the comments on one of the player's reviews.

use vstd::prelude::*;

verus! {

/// Query of a review's comments.
pub struct ListCommentsQuery {
    pub review_id: u128,
}

} // verus!
