use ranklab::routes::player::reviews::{acceptance_transfer, delete_plan, update_idempotency_key};
use ranklab::data_types::{MediaState, ReviewState, UserGame};
use ranklab::lookup::{attach, attach_optional, attach_required, distinct_ids, first_match, present_ids};
use ranklab::routes::coach::reviews::{
    review_published_notice, review_started_notice, UpdateAction as CoachAction,
    UpdateReviewRequest as CoachUpdate,
};
use ranklab::routes::comments::{clean_comment_body, clean_drawing, CommentMetadata, CreateCommentRequest};
use ranklab::routes::games::{followed_flags, CreateGameRequest};
use ranklab::routes::player::reviews::{
    may_delete, recording_ready, review_payment_params, shows_payment, tax_failure_status, CreateReviewRequest,
    ListReviewsQuery, UpdateAction, UpdateReviewRequest,
};
use ranklab::routes::reviews::{may_show, new_vods_notice, CreateReviewRequest as NewReview};
use ranklab::stripe::RequestErrorKind;

const ALL_STATES: [ReviewState; 6] = [
    ReviewState::AwaitingPayment,
    ReviewState::AwaitingReview,
    ReviewState::Draft,
    ReviewState::Published,
    ReviewState::Accepted,
    ReviewState::Refunded,
];

fn after(state: ReviewState, action: UpdateAction) -> ReviewState {
    match action {
        UpdateAction::Accept => ReviewState::Accepted,
        UpdateAction::Refund => ReviewState::Refunded,
        _ => state,
    }
}

#[test]
fn player_accepts_published_review() {
    let req = UpdateReviewRequest { accepted: Some(true), cancelled: None };
    assert_eq!(req.action(ReviewState::Published), UpdateAction::Accept);
    assert_eq!(req.action(ReviewState::Accepted), UpdateAction::Unchanged);
    assert_eq!(req.action(ReviewState::Draft), UpdateAction::Refuse);
    let no = UpdateReviewRequest { accepted: Some(false), cancelled: Some(true) };
    assert_eq!(no.action(ReviewState::AwaitingReview), UpdateAction::Unchanged);
}

#[test]
fn player_cancels_review_awaiting_coach() {
    let req = UpdateReviewRequest { accepted: None, cancelled: Some(true) };
    assert_eq!(req.action(ReviewState::AwaitingReview), UpdateAction::Refund);
    assert_eq!(req.action(ReviewState::Refunded), UpdateAction::Unchanged);
    assert_eq!(req.action(ReviewState::Published), UpdateAction::Refuse);
    let empty = UpdateReviewRequest { accepted: None, cancelled: None };
    assert_eq!(empty.action(ReviewState::Draft), UpdateAction::Unchanged);
}

#[test]
fn repeated_player_update_changes_nothing() {
    for accepted in [None, Some(true), Some(false)] {
        for cancelled in [None, Some(true), Some(false)] {
            let req = UpdateReviewRequest { accepted, cancelled };
            for s in ALL_STATES {
                let s1 = after(s, req.action(s));
                let second = req.action(s1);
                assert!(second == UpdateAction::Unchanged || second == UpdateAction::Refuse);
                assert_eq!(after(s1, second), s1);
            }
        }
    }
}

#[test]
fn coach_starts_and_publishes() {
    let start = CoachUpdate { published: None, started: Some(true) };
    assert_eq!(start.action(ReviewState::AwaitingReview), CoachAction::Start);
    assert_eq!(start.action(ReviewState::Draft), CoachAction::Unchanged);
    let publish = CoachUpdate { published: Some(true), started: None };
    assert_eq!(publish.action(ReviewState::Draft), CoachAction::Publish);
    assert_eq!(publish.action(ReviewState::Published), CoachAction::Unchanged);
    assert_eq!(publish.action(ReviewState::AwaitingReview), CoachAction::Unchanged);
}

#[test]
fn review_guards() {
    assert!(may_delete(ReviewState::AwaitingPayment));
    assert!(!may_delete(ReviewState::AwaitingReview));
    assert!(shows_payment(ReviewState::AwaitingPayment));
    assert!(!shows_payment(ReviewState::Published));
    assert!(!recording_ready(MediaState::Created));
    assert!(recording_ready(MediaState::Uploaded));
    assert!(recording_ready(MediaState::Processed));
    assert!(may_show(7, 7));
    assert!(!may_show(7, 8));
    assert_eq!(tax_failure_status(RequestErrorKind::BadRequest), 422);
    assert_eq!(tax_failure_status(RequestErrorKind::NotFound), 500);
}

#[test]
fn review_list_defaults() {
    let q = ListReviewsQuery { page: None, archived: None };
    assert_eq!(q.page(), 1);
    assert!(!q.archived());
    let q = ListReviewsQuery { page: Some(3), archived: Some(true) };
    assert_eq!(q.page(), 3);
    assert!(q.archived());
}

#[test]
fn review_payment_and_notes() {
    let p = review_payment_params("cus_1", "taxcalc_1", 1250);
    assert_eq!(p.amount, 1250);
    assert_eq!(p.currency, "usd");
    assert_eq!(p.customer, "cus_1");
    assert_eq!(p.metadata, vec![("tax_calculation_id".to_string(), "taxcalc_1".to_string())]);
    let req = CreateReviewRequest { recording_id: 1, notes: "hi<script>x</script>".to_string(), coach_id: 2 };
    assert_eq!(req.stored_notes(), "hi");
}

#[test]
fn new_review_request_checks() {
    let req = NewReview { recording_id: 1, title: "".to_string(), notes: "".to_string(), game_id: "golf".to_string() };
    let errors: Vec<_> = req.validate(&["chess"]).iter().map(|e| (e.field, e.code)).collect();
    assert_eq!(errors, vec![("title", "length"), ("game_id", "Game ID is not valid")]);
    let n = new_vods_notice();
    assert_eq!(n.cta.unwrap().1, "https://ranklab.gg/dashboard");
}

#[test]
fn coach_review_notices() {
    let id = 0x936da01f9abd4d9d80c702af85c822a8u128;
    let n = review_published_notice("https://ranklab.gg", "Jane", id);
    assert_eq!(n.subject, "Your review has been completed");
    assert_eq!(n.title, "Jane has finished reviewing your recording.");
    assert_eq!(
        n.cta.unwrap().1,
        "https://ranklab.gg/player/reviews/936da01f-9abd-4d9d-80c7-02af85c822a8"
    );
    assert_eq!(n.unsubscribe_url.unwrap(), "https://ranklab.gg/player/account?tab=notifications");
    let s = review_started_notice("https://ranklab.gg", "Jane", id);
    assert_eq!(s.subject, "Jane has started reviewing your recording");
    assert_eq!(s.body, "You will receive an email when your coach is finished with the review.");
}

#[test]
fn ids_to_load_are_distinct() {
    let ids = distinct_ids(&vec![3, 1, 3, 2, 1]);
    assert_eq!(ids, vec![3, 1, 2]);
    assert!(distinct_ids(&vec![]).is_empty());
}

#[test]
fn rows_attach_to_first_match() {
    assert_eq!(first_match(&vec![5, 6, 5], 5), Some(0));
    assert_eq!(first_match(&vec![5, 6], 7), None);
    assert_eq!(attach(&vec![6, 9, 5], &vec![5, 6, 6]), vec![Some(1), None, Some(0)]);
    assert_eq!(attach_optional(&vec![Some(6), None, Some(8)], &vec![6, 8]), vec![Some(0), None, Some(1)]);
    assert_eq!(attach_required(&vec![8, 6, 8], &vec![6, 8]), vec![1, 0, 1]);
    assert_eq!(present_ids(&vec![None, Some(4), None, Some(2)]), vec![4, 2]);
}

#[test]
fn followed_games_are_flagged() {
    let followed = vec!["chess".to_string()];
    assert_eq!(followed_flags(&["overwatch", "chess"], &followed), vec![false, true]);
    assert_eq!(followed_flags(&["overwatch"], &vec![]), vec![false]);
    let req = CreateGameRequest { email: "x".to_string(), name: "".to_string() };
    let errors: Vec<_> = req.validate().iter().map(|e| (e.field, e.code)).collect();
    assert_eq!(errors, vec![("email", "email"), ("name", "length")]);
}

#[test]
fn comments_are_cleaned() {
    assert_eq!(clean_comment_body("<b>nice</b><script>alert(1)</script>"), "<b>nice</b>");
    let drawing = "<svg viewBox=\"0 0 10 10\" onload=\"x()\"><path d=\"M0 0\" stroke=\"red\" onclick=\"y()\"></path></svg>";
    let cleaned = clean_drawing(drawing);
    assert!(cleaned.contains("<path"));
    assert!(cleaned.contains("d=\"M0 0\""));
    assert!(!cleaned.contains("onload"));
    assert!(!cleaned.contains("onclick"));
    assert_eq!(clean_drawing("<b>bold</b><i>it</i>"), "boldit");
    let req = CreateCommentRequest {
        body: "<i>ok</i><img src=x onerror=y>".to_string(),
        recording_id: 1,
        metadata: CommentMetadata::Video { timestamp: 42, drawing: "<script>x</script>".to_string() },
    };
    let (body, metadata) = req.cleaned();
    assert_eq!(body, "<i>ok</i><img src=\"x\">");
    match metadata {
        CommentMetadata::Video { timestamp, drawing } => {
            assert_eq!(timestamp, 42);
            assert_eq!(drawing, "");
        }
    }
}

#[test]
fn player_games() {
    let games = vec![UserGame { game_id: "chess".to_string(), skill_level: 3 }];
    assert!(ranklab::data_types::plays_game(&games, "chess"));
    assert!(!ranklab::data_types::plays_game(&games, "overwatch"));
}

#[test]
fn acceptance_transfer_and_delete() {
    let t = acceptance_transfer("acct_1", 800, Some("ch_1".to_string()));
    assert_eq!((t.currency, t.destination.as_str(), t.amount, t.source_transaction.as_str()), ("usd", "acct_1", 800, "ch_1"));
    assert_eq!(delete_plan(ReviewState::AwaitingPayment), Ok("requested_by_customer"));
    assert_eq!(delete_plan(ReviewState::Published), Err(422));
    assert_eq!(update_idempotency_key(0x936da01f9abd4d9d80c702af85c822a8), "936da01f-9abd-4d9d-80c7-02af85c822a8");
}
