//! `/coach/reviews`: the reviews assigned to a coach, started and published.

use vstd::prelude::*;
use crate::data_types::{ReviewState, review_step};
use crate::notifications::Notification;

verus! {

/// Query of the review list.
pub struct ListReviewsQuery {
    pub page: Option<i64>,
    pub archived: Option<bool>,
}

impl ListReviewsQuery {
    /// The page asked for; the first when none is given.
    pub fn page(&self) -> (r: i64)
        ensures
            r == match self.page {
                Some(p) => p,
                None => 1,
            },
    {
        match self.page {
            Some(p) => p,
            None => 1,
        }
    }

    /// Whether archived reviews are asked for; not unless given.
    pub fn archived(&self) -> (r: bool)
        ensures
            r == match self.archived {
                Some(a) => a,
                None => false,
            },
    {
        match self.archived {
            Some(a) => a,
            None => false,
        }
    }
}

/// A coach's change to a review.
pub struct UpdateReviewRequest {
    pub published: Option<bool>,
    pub started: Option<bool>,
}

/// What a coach's update does to a review.
#[derive(Clone, Copy, Debug, PartialEq, Eq, Structural)]
pub enum UpdateAction {
    /// Nothing changes.
    Unchanged,
    /// The draft is published and the player told so.
    Publish,
    /// The review is started as a draft and the player told so.
    Start,
}

/// The action for a coach's update: publishing applies to a draft, starting
/// to a review awaiting the coach; publishing is looked at first; anything
/// else changes nothing.
pub open spec fn update_action_spec(state: ReviewState, req: UpdateReviewRequest) -> UpdateAction {
    if req.published == Some(true) && state == ReviewState::Draft {
        UpdateAction::Publish
    } else if req.started == Some(true) && state == ReviewState::AwaitingReview {
        UpdateAction::Start
    } else {
        UpdateAction::Unchanged
    }
}

/// The review's state after an action.
pub open spec fn state_after(state: ReviewState, action: UpdateAction) -> ReviewState {
    match action {
        UpdateAction::Publish => ReviewState::Published,
        UpdateAction::Start => ReviewState::Draft,
        UpdateAction::Unchanged => state,
    }
}

impl UpdateReviewRequest {
    /// Decides what the update does to a review in the given state.
    pub fn action(&self, state: ReviewState) -> (r: UpdateAction)
        ensures
            r == update_action_spec(state, *self),
            r == UpdateAction::Publish <==> (self.published == Some(true) && state == ReviewState::Draft),
            r == UpdateAction::Start <==> (self.published != Some(true) || state != ReviewState::Draft) && (
            self.started == Some(true) && state == ReviewState::AwaitingReview),
    {
        proof {
            lemma_coach_actions_by_state(state, *self);
        }
        if let Some(true) = self.published {
            if state == ReviewState::Draft {
                return UpdateAction::Publish;
            }
        }
        if let Some(true) = self.started {
            if state == ReviewState::AwaitingReview {
                return UpdateAction::Start;
            }
        }
        UpdateAction::Unchanged
    }
}

/// What a coach's update does: it publishes exactly a draft asked to be
/// published, starts exactly a review awaiting the coach asked to be started
/// (when it is not a publish), and changes nothing otherwise.
pub proof fn lemma_coach_actions_by_state(state: ReviewState, req: UpdateReviewRequest)
    ensures
        update_action_spec(state, req) == UpdateAction::Publish <==> (req.published == Some(true) && state
            == ReviewState::Draft),
        update_action_spec(state, req) == UpdateAction::Start <==> (req.published != Some(true) || state
            != ReviewState::Draft) && (req.started == Some(true) && state == ReviewState::AwaitingReview),
{
}

/// A coach's update either leaves the review as it is or takes one step of
/// the review life cycle.
pub proof fn lemma_update_follows_life_cycle(state: ReviewState, req: UpdateReviewRequest)
    ensures
        state_after(state, update_action_spec(state, req)) == state || review_step(
            state,
            state_after(state, update_action_spec(state, req)),
        ),
{
}

/// A published review is never changed by a coach.
pub proof fn lemma_published_stays(req: UpdateReviewRequest)
    ensures
        update_action_spec(ReviewState::Published, req) == UpdateAction::Unchanged,
{
}

} // verus!

verus! {

/// The link to a review on the player's side: `<web_host>/player/reviews/<id>`.
pub open spec fn player_review_link(web_host: Seq<char>, review_id: u128) -> Seq<char> {
    web_host + "/player/reviews/"@ + crate::uuids::uuid_text(review_id)
}

/// The link to the player's notification settings.
pub open spec fn notification_settings_link(web_host: Seq<char>) -> Seq<char> {
    web_host + "/player/account?tab=notifications"@
}

/// The notice a player gets about their review, with a button to it and the
/// link to their notification settings.
fn review_notice(web_host: &str, review_id: u128, subject: String, title: String, body: &str) -> (r: Notification)
    ensures
        r.subject@ == subject@,
        r.title@ == title@,
        r.body@ == body@,
        r.cta matches Some(c) && c.0@ == "View Review"@ && c.1@ == player_review_link(web_host@, review_id),
        r.unsubscribe_url matches Some(u) && u@ == notification_settings_link(web_host@),
{
    let link = crate::uuids::object_key(String::from_str(web_host).concat("/player/reviews/").as_str(), review_id);
    Notification {
        subject,
        title,
        body: String::from_str(body),
        cta: Some((String::from_str("View Review"), link)),
        unsubscribe_url: Some(String::from_str(web_host).concat("/player/account?tab=notifications")),
    }
}

/// The notice a player gets when their review is published.
pub fn review_published_notice(web_host: &str, coach_name: &str, review_id: u128) -> (r: Notification)
    ensures
        r.subject@ == "Your review has been completed"@,
        r.title@ == coach_name@ + " has finished reviewing your recording."@,
        r.body@ == "You can now have a look at the comments and suggestions your coach has made."@,
        r.cta matches Some(c) && c.0@ == "View Review"@ && c.1@ == player_review_link(web_host@, review_id),
        r.unsubscribe_url matches Some(u) && u@ == notification_settings_link(web_host@),
{
    review_notice(
        web_host,
        review_id,
        String::from_str("Your review has been completed"),
        String::from_str(coach_name).concat(" has finished reviewing your recording."),
        "You can now have a look at the comments and suggestions your coach has made.",
    )
}

/// The notice a player gets when the coach starts on their review.
pub fn review_started_notice(web_host: &str, coach_name: &str, review_id: u128) -> (r: Notification)
    ensures
        r.subject@ == coach_name@ + " has started reviewing your recording"@,
        r.title@ == coach_name@ + " has started reviewing your recording"@,
        r.body@ == "You will receive an email when your coach is finished with the review."@,
        r.cta matches Some(c) && c.0@ == "View Review"@ && c.1@ == player_review_link(web_host@, review_id),
        r.unsubscribe_url matches Some(u) && u@ == notification_settings_link(web_host@),
{
    review_notice(
        web_host,
        review_id,
        String::from_str(coach_name).concat(" has started reviewing your recording"),
        String::from_str(coach_name).concat(" has started reviewing your recording"),
        "You will receive an email when your coach is finished with the review.",
    )
}

} // verus!
