//! `/coach/audios`: voice recordings a coach uploads for a review.

use vstd::prelude::*;

verus! {

/// A new voice recording for a review.
pub struct CreateAudioRequest {
    pub review_id: u128,
}

} // verus!
