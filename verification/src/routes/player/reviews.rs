//! `/player/reviews`: a player's reviews, their payment, acceptance and
//! cancellation.

use vstd::prelude::*;
use crate::data_types::{MediaState, ReviewState, review_step};
use crate::html::html_clean_spec;
use crate::routes::comments::clean_comment_body;
use crate::routes::player::checkouts::tax_calculation_metadata;
use crate::stripe::RequestErrorKind;
use crate::text::pair_views;

verus! {

/// Query of the review list.
pub struct ListReviewsQuery {
    pub page: Option<i64>,
    pub archived: Option<bool>,
}

impl ListReviewsQuery {
    /// The page asked for; the first when none is given.
    pub fn page(&self) -> (r: i64)
        ensures
            r == match self.page {
                Some(p) => p,
                None => 1,
            },
    {
        match self.page {
            Some(p) => p,
            None => 1,
        }
    }

    /// Whether archived reviews are asked for; not unless given.
    pub fn archived(&self) -> (r: bool)
        ensures
            r == match self.archived {
                Some(a) => a,
                None => false,
            },
    {
        match self.archived {
            Some(a) => a,
            None => false,
        }
    }
}

/// A player's request for a review of a recording by a coach.
pub struct CreateReviewRequest {
    pub recording_id: u128,
    pub notes: String,
    pub coach_id: u128,
}

/// A player's change to a review.
pub struct UpdateReviewRequest {
    pub accepted: Option<bool>,
    pub cancelled: Option<bool>,
}

/// What a player's update does to a review.
#[derive(Clone, Copy, Debug, PartialEq, Eq, Structural)]
pub enum UpdateAction {
    /// Nothing changes; the review is returned as it is.
    Unchanged,
    /// The request is refused (422 Unprocessable Entity).
    Refuse,
    /// The coach is paid and the review becomes accepted.
    Accept,
    /// The payment is refunded and the review becomes refunded.
    Refund,
}

/// The action for a player's update: `accepted` is looked at first; a true
/// value accepts a published review, and is a no-op on one already accepted;
/// then `cancelled`, which refunds a review still awaiting the coach and is a
/// no-op on one already refunded. Any other state refuses the request.
pub open spec fn update_action_spec(state: ReviewState, req: UpdateReviewRequest) -> UpdateAction {
    match req.accepted {
        Some(accepted) => if !accepted || state == ReviewState::Accepted {
            UpdateAction::Unchanged
        } else if state != ReviewState::Published {
            UpdateAction::Refuse
        } else {
            UpdateAction::Accept
        },
        None => match req.cancelled {
            Some(cancelled) => if !cancelled || state == ReviewState::Refunded {
                UpdateAction::Unchanged
            } else if state != ReviewState::AwaitingReview {
                UpdateAction::Refuse
            } else {
                UpdateAction::Refund
            },
            None => UpdateAction::Unchanged,
        },
    }
}

/// The review's state after an action.
pub open spec fn state_after(state: ReviewState, action: UpdateAction) -> ReviewState {
    match action {
        UpdateAction::Accept => ReviewState::Accepted,
        UpdateAction::Refund => ReviewState::Refunded,
        _ => state,
    }
}

impl UpdateReviewRequest {
    /// Decides what the update does to a review in the given state.
    pub fn action(&self, state: ReviewState) -> (r: UpdateAction)
        ensures
            r == update_action_spec(state, *self),
            self.accepted == Some(true) ==> r == (if state == ReviewState::Accepted {
                UpdateAction::Unchanged
            } else if state == ReviewState::Published {
                UpdateAction::Accept
            } else {
                UpdateAction::Refuse
            }),
            self.accepted == Some(false) ==> r == UpdateAction::Unchanged,
            self.accepted is None && self.cancelled == Some(true) ==> r == (if state == ReviewState::Refunded {
                UpdateAction::Unchanged
            } else if state == ReviewState::AwaitingReview {
                UpdateAction::Refund
            } else {
                UpdateAction::Refuse
            }),
            self.accepted is None && self.cancelled != Some(true) ==> r == UpdateAction::Unchanged,
    {
        proof {
            lemma_player_actions_by_state(state, *self);
        }
        if let Some(accepted) = self.accepted {
            if !accepted || state == ReviewState::Accepted {
                return UpdateAction::Unchanged;
            }
            if state != ReviewState::Published {
                return UpdateAction::Refuse;
            }
            return UpdateAction::Accept;
        }
        if let Some(cancelled) = self.cancelled {
            if !cancelled || state == ReviewState::Refunded {
                return UpdateAction::Unchanged;
            }
            if state != ReviewState::AwaitingReview {
                return UpdateAction::Refuse;
            }
            return UpdateAction::Refund;
        }
        UpdateAction::Unchanged
    }
}

/// A player may delete a review only while it awaits payment; otherwise the
/// request is refused (422).
pub fn may_delete(state: ReviewState) -> (r: bool)
    ensures
        r == (state == ReviewState::AwaitingPayment),
{
    state == ReviewState::AwaitingPayment
}

/// A review can be requested for a recording only once its upload has
/// arrived; a recording still in the created state is refused (422).
pub fn recording_ready(state: MediaState) -> (r: bool)
    ensures
        r == (state != MediaState::Created),
{
    state != MediaState::Created
}

/// Whether showing a review includes its payment intent and tax calculation:
/// only while it awaits payment.
pub fn shows_payment(state: ReviewState) -> (r: bool)
    ensures
        r == (state == ReviewState::AwaitingPayment),
{
    state == ReviewState::AwaitingPayment
}

impl CreateReviewRequest {
    /// The notes stored with the review: cleaned as HTML.
    pub fn stored_notes(&self) -> (r: String)
        ensures
            r@ == html_clean_spec(self.notes@),
    {
        clean_comment_body(self.notes.as_str())
    }
}

/// The status of a review request whose tax calculation failed: 422 when
/// Stripe refused it, 500 for any other failure.
pub fn tax_failure_status(kind: RequestErrorKind) -> (r: u16)
    ensures
        r == (if kind == RequestErrorKind::BadRequest {
            422u16
        } else {
            500u16
        }),
{
    match kind {
        RequestErrorKind::BadRequest => 422,
        _ => 500,
    }
}

/// The payment intent of a new review.
pub struct ReviewPaymentParams {
    /// The total with tax, in cents.
    pub amount: i64,
    pub currency: &'static str,
    pub customer: String,
    pub metadata: Vec<(String, String)>,
}

/// The payment of a new review: the calculation's total, in dollars, from
/// the player's customer, recording the calculation's id.
pub fn review_payment_params(customer_id: &str, tax_calculation_id: &str, amount_total: i64) -> (r:
    ReviewPaymentParams)
    ensures
        r.amount == amount_total,
        r.currency@ == "usd"@,
        r.customer@ == customer_id@,
        pair_views(r.metadata@) == seq![("tax_calculation_id"@, tax_calculation_id@)],
{
    ReviewPaymentParams {
        amount: amount_total,
        currency: "usd",
        customer: String::from_str(customer_id),
        metadata: tax_calculation_metadata(tax_calculation_id),
    }
}

/// The idempotency key of the Stripe requests a player's update of a review
/// makes (the transfer or the refund): the review's id, so that a repeated
/// update pays or refunds at most once.
pub fn update_idempotency_key(review_id: u128) -> (r: String)
    ensures
        r@ == crate::uuids::uuid_text(review_id),
{
    let r = crate::uuids::object_key("", review_id);
    proof {
        reveal_strlit("");
        assert(""@ + crate::uuids::uuid_text(review_id) =~= crate::uuids::uuid_text(review_id));
    }
    r
}

/// The transfer that pays a coach for an accepted review.
pub struct TransferParams {
    pub currency: &'static str,
    /// The coach's connected account.
    pub destination: String,
    /// In cents.
    pub amount: i64,
    /// The charge the transfer is funded from.
    pub source_transaction: String,
}

/// The transfer on acceptance: in dollars, of `amount`, to the coach's
/// account, funded from the payment's latest charge. A payment without a
/// charge is left out: the handler panics there.
pub fn acceptance_transfer(coach_account_id: &str, amount: i64, latest_charge: Option<String>) -> (r: TransferParams)
    requires
        latest_charge is Some,
    ensures
        r.currency@ == "usd"@,
        r.destination@ == coach_account_id@,
        r.amount == amount,
        latest_charge matches Some(c) && r.source_transaction@ == c@,
{
    match latest_charge {
        Some(c) => TransferParams {
            currency: "usd",
            destination: String::from_str(coach_account_id),
            amount,
            source_transaction: c,
        },
        None => {
            assert(false);
            TransferParams {
                currency: "usd",
                destination: String::from_str(coach_account_id),
                amount,
                source_transaction: String::new(),
            }
        },
    }
}

/// Deleting a review: allowed only while it awaits payment, and then its
/// payment intent is cancelled with the reason `requested_by_customer`;
/// otherwise refused with 422 before anything is touched.
pub fn delete_plan(state: ReviewState) -> (r: Result<&'static str, u16>)
    ensures
        state == ReviewState::AwaitingPayment ==> (r matches Ok(reason) && reason@ == "requested_by_customer"@),
        state != ReviewState::AwaitingPayment ==> r == Err::<&'static str, u16>(422),
{
    if may_delete(state) {
        Ok("requested_by_customer")
    } else {
        Err(422)
    }
}

/// What a player's update does, state by state: accepting takes a published
/// review to accepted, leaves an accepted one as it is and is refused in any
/// other state; cancelling (when acceptance is not asked about) refunds a
/// review awaiting the coach, leaves a refunded one as it is and is refused
/// in any other state; a false flag, or no flag, changes nothing.
pub proof fn lemma_player_actions_by_state(state: ReviewState, req: UpdateReviewRequest)
    ensures
        req.accepted == Some(true) ==> update_action_spec(state, req) == (if state == ReviewState::Accepted {
            UpdateAction::Unchanged
        } else if state == ReviewState::Published {
            UpdateAction::Accept
        } else {
            UpdateAction::Refuse
        }),
        req.accepted == Some(false) ==> update_action_spec(state, req) == UpdateAction::Unchanged,
        req.accepted is None && req.cancelled == Some(true) ==> update_action_spec(state, req) == (if state
            == ReviewState::Refunded {
            UpdateAction::Unchanged
        } else if state == ReviewState::AwaitingReview {
            UpdateAction::Refund
        } else {
            UpdateAction::Refuse
        }),
        req.accepted is None && req.cancelled != Some(true) ==> update_action_spec(state, req)
            == UpdateAction::Unchanged,
{
}

/// A player's update either leaves the review as it is or takes one step of
/// the review life cycle.
pub proof fn lemma_update_follows_life_cycle(state: ReviewState, req: UpdateReviewRequest)
    ensures
        state_after(state, update_action_spec(state, req)) == state || review_step(
            state,
            state_after(state, update_action_spec(state, req)),
        ),
{
}

/// Sending the same update twice changes nothing the second time.
pub proof fn lemma_update_idempotent(state: ReviewState, req: UpdateReviewRequest)
    ensures
        ({
            let s1 = state_after(state, update_action_spec(state, req));
            update_action_spec(s1, req) == UpdateAction::Unchanged || update_action_spec(s1, req)
                == UpdateAction::Refuse
        }),
        ({
            let s1 = state_after(state, update_action_spec(state, req));
            state_after(s1, update_action_spec(s1, req)) == s1
        }),
{
}

/// A refused update leaves the review as it was.
pub proof fn lemma_refused_update_unchanged(state: ReviewState, req: UpdateReviewRequest)
    requires
        update_action_spec(state, req) == UpdateAction::Refuse,
    ensures
        state_after(state, update_action_spec(state, req)) == state,
{
}

} // verus!
