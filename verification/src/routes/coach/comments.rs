//! `/coach/comments`: a coach's comments on a review in progress, each with
//! an optional voice recording.

use vstd::prelude::*;
use crate::html::html_clean_spec;
use crate::routes::comments::clean_comment_body;

verus! {

/// A new comment on a draft review. The metadata is JSON text, stored as
/// given.
pub struct CreateCommentRequest {
    pub body: String,
    pub review_id: u128,
    pub metadata: String,
    pub audio_id: Option<u128>,
}

/// A change to a comment.
pub struct UpdateCommentRequest {
    pub body: String,
    pub metadata: String,
    pub audio_id: Option<u128>,
}

/// Query of a review's comments.
pub struct ListCommentsQuery {
    pub review_id: u128,
}

impl CreateCommentRequest {
    /// The text stored for a new comment: cleaned as HTML. (A change to a
    /// comment stores its text as given.)
    pub fn stored_body(&self) -> (r: String)
        ensures
            r@ == html_clean_spec(self.body@),
    {
        clean_comment_body(self.body.as_str())
    }
}

} // verus!
