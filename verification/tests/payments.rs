use ranklab::stripe::tax::transactions::TaxTransaction;
use ranklab::data_types::UserGame;
use ranklab::routes::coach::account_links::account_link_form;
use ranklab::routes::player::checkouts::{
    checkout_payment_params, customer_update_failure_status, tax_calculation_metadata, tax_failure_status,
};
use ranklab::routes::player::review_intents::{review_intent_payment_params, UpdateReviewIntentMutation};
use ranklab::routes::player::stripe_billing_details::update_failure_status;
use ranklab::routes::player::stripe_billing_portal_sessions::{session_form, CreateBillingPortalSession};
use ranklab::routes::player::stripe_checkout_sessions::{session_params, CreateCheckoutSessionMutation};
use ranklab::routes::player::stripe_payment_intents::{recording_payment_params, UpdatePaymentIntentMutation};
use ranklab::routes::player::stripe_tax_calculations::{failure_status, line_item_reference, records_on_payment};
use ranklab::stripe::tax::calculations::TaxCalculation;
use ranklab::stripe::tax_calculation::TaxCalculation as ReviewTaxCalculation;
use ranklab::stripe::RequestErrorKind;

fn pairs(v: &[(&str, &str)]) -> Vec<(String, String)> {
    v.iter().map(|(a, b)| (a.to_string(), b.to_string())).collect()
}

#[test]
fn recording_payment_is_ten_dollars_by_card() {
    let p = recording_payment_params("cus_9");
    assert_eq!(p.amount, 1000);
    assert_eq!(p.currency, "usd");
    assert_eq!(p.customer, "cus_9");
    assert_eq!(p.description, "Recording payment");
    assert!(!p.automatic_payment_methods);
    assert_eq!(p.payment_method_types, vec!["card"]);
    assert_eq!(p.setup_future_usage, "on_session");
    let q = review_intent_payment_params("cus_9");
    assert!(q.automatic_payment_methods);
    assert!(q.payment_method_types.is_empty());
}

#[test]
fn payment_description_plan() {
    let games = vec![UserGame { game_id: "chess".to_string(), skill_level: 1 }];
    let body = UpdatePaymentIntentMutation {
        title: "Endgame".to_string(),
        notes: "Check move 30".to_string(),
        game_id: "chess".to_string(),
    };
    assert_eq!(
        body.plan(&games, true),
        Ok(pairs(&[("title", "Endgame"), ("notes", "Check move 30"), ("game_id", "chess")]))
    );
    assert_eq!(body.plan(&games, false), Err(400));
    let other = UpdatePaymentIntentMutation { game_id: "overwatch".to_string(), ..body };
    assert_eq!(other.plan(&games, true), Err(400));
    assert!(other.validate(&["chess", "overwatch"]).is_empty());
    let intent = UpdateReviewIntentMutation {
        title: "".to_string(),
        notes: "".to_string(),
        game_id: "overwatch".to_string(),
    };
    assert!(!intent.allowed_for(&games));
    let errors: Vec<_> = intent.validate(&["chess"]).iter().map(|e| (e.field, e.code)).collect();
    assert_eq!(errors, vec![("title", "length"), ("game_id", "Game ID is not valid")]);
}

#[test]
fn tax_calculation_forms() {
    assert_eq!(
        TaxCalculation::create_form("cus_1", 1500),
        pairs(&[
            ("currency", "usd"),
            ("customer", "cus_1"),
            ("line_items[0][amount]", "1500"),
            ("line_items[0][reference]", "0"),
        ])
    );
    assert_eq!(
        ReviewTaxCalculation::review_form("cus_1", 2000, "r-1"),
        pairs(&[
            ("currency", "usd"),
            ("customer", "cus_1"),
            ("line_items[][price]", "2000"),
            ("line_items[][reference]", "r-1"),
            ("preview", "false"),
        ])
    );
    assert_eq!(line_item_reference(true), Some("0"));
    assert_eq!(line_item_reference(false), None);
    assert!(records_on_payment(false));
    assert!(!records_on_payment(true));
    assert_eq!(failure_status(RequestErrorKind::BadRequest), 400);
    assert_eq!(failure_status(RequestErrorKind::ServerError), 500);
}

#[test]
fn checkout_failures() {
    assert_eq!(customer_update_failure_status(true), 422);
    assert_eq!(customer_update_failure_status(false), 500);
    assert_eq!(tax_failure_status(Some(400)), 422);
    assert_eq!(tax_failure_status(Some(502)), 500);
    assert_eq!(tax_failure_status(None), 500);
    assert_eq!(update_failure_status(Some(400)), 422);
    assert_eq!(update_failure_status(None), 500);
    assert_eq!(tax_calculation_metadata("tc_1"), pairs(&[("tax_calculation_id", "tc_1")]));
}

#[test]
fn stripe_link_forms() {
    assert_eq!(
        account_link_form("acct_1"),
        pairs(&[
            ("account", "acct_1"),
            ("refresh_url", "http://example.com"),
            ("return_url", "http://example.com"),
            ("type", "account_onboarding"),
        ])
    );
    let req = CreateBillingPortalSession { return_url: "https://ranklab.gg/back".to_string() };
    assert_eq!(session_form(&req, "cus_2"), pairs(&[("return_url", "https://ranklab.gg/back"), ("customer", "cus_2")]));
    let req = CreateCheckoutSessionMutation { success_url: "s".to_string(), cancel_url: "c".to_string() };
    let p = session_params(&req, "cus_3");
    assert_eq!((p.success_url.as_str(), p.cancel_url.as_str(), p.customer.as_str(), p.mode), ("s", "c", "cus_3", "setup"));
    assert_eq!(p.payment_method_types, vec!["card"]);
}

#[test]
fn tax_transactions_are_idempotent_per_calculation() {
    assert_eq!(TaxTransaction::create_from_calculation_headers("taxcalc_1"), pairs(&[("Idempotency-Key", "taxcalc_1")]));
}

#[test]
fn checkout_payment_intent() {
    let p = checkout_payment_params(2500, "cus_4", "acct_7", "tc_9");
    assert_eq!(p.amount, 2500);
    assert_eq!(p.currency, "usd");
    assert_eq!(p.customer, "cus_4");
    assert_eq!(p.transfer_destination, "acct_7");
    assert_eq!(p.metadata, pairs(&[("tax_calculation_id", "tc_9")]));
}
