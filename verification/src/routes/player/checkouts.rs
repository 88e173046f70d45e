//! `/player/checkouts`: paying for a review: the billing address is set on
//! the player's customer, the tax is calculated, and a payment intent is
//! made (any earlier one is cancelled).

use vstd::prelude::*;
use crate::text::{pair, pair_views};

verus! {

/// A billing address.
pub struct Address {
    pub city: Option<String>,
    pub country: Option<String>,
    pub line1: Option<String>,
    pub line2: Option<String>,
    pub postal_code: Option<String>,
    pub state: Option<String>,
}

/// A checkout of a review.
pub struct CreateCheckoutRequest {
    pub review_id: u128,
    pub billing_address: Address,
}

/// The status of a checkout whose address Stripe would not set on the
/// customer: 422 when Stripe's API refused it, 500 for any other failure.
pub fn customer_update_failure_status(refused_by_api: bool) -> (r: u16)
    ensures
        r == (if refused_by_api {
            422u16
        } else {
            500u16
        }),
{
    if refused_by_api {
        422
    } else {
        500
    }
}

/// The status of a checkout whose tax calculation failed: 422 when Stripe
/// answered 400 (the address does not allow one), 500 otherwise.
pub fn tax_failure_status(status: Option<u16>) -> (r: u16)
    ensures
        r == (if status == Some(400u16) {
            422u16
        } else {
            500u16
        }),
{
    match status {
        Some(400) => 422,
        _ => 500,
    }
}

/// The metadata of a payment intent: the tax calculation it pays for.
pub fn tax_calculation_metadata(tax_calculation_id: &str) -> (r: Vec<(String, String)>)
    ensures
        pair_views(r@) == seq![("tax_calculation_id"@, tax_calculation_id@)],
{
    let mut r: Vec<(String, String)> = Vec::new();
    r.push(pair("tax_calculation_id", tax_calculation_id));
    assert(pair_views(r@) =~= seq![("tax_calculation_id"@, tax_calculation_id@)]);
    r
}

/// The reason given when a checkout cancels the review's earlier payment
/// intent.
pub fn replaced_payment_cancellation_reason() -> (r: &'static str)
    ensures
        r@ == "abandoned"@,
{
    "abandoned"
}

/// The payment intent of a checkout.
pub struct CheckoutPaymentParams {
    /// The coach's price, in cents.
    pub amount: i64,
    pub currency: &'static str,
    pub customer: String,
    /// The coach's connected account, which receives the payment less the
    /// platform's fee.
    pub transfer_destination: String,
    pub metadata: Vec<(String, String)>,
}

/// The payment intent of a checkout: the coach's price in dollars, from the
/// player's customer, transferred to the coach's account, recording the tax
/// calculation. (The platform's fee is computed in floating point and set
/// by the caller.)
pub fn checkout_payment_params(
    coach_price: i32,
    customer_id: &str,
    coach_account_id: &str,
    tax_calculation_id: &str,
) -> (r: CheckoutPaymentParams)
    ensures
        r.amount == coach_price,
        r.currency@ == "usd"@,
        r.customer@ == customer_id@,
        r.transfer_destination@ == coach_account_id@,
        pair_views(r.metadata@) == seq![("tax_calculation_id"@, tax_calculation_id@)],
{
    CheckoutPaymentParams {
        amount: coach_price as i64,
        currency: "usd",
        customer: String::from_str(customer_id),
        transfer_destination: String::from_str(coach_account_id),
        metadata: tax_calculation_metadata(tax_calculation_id),
    }
}

} // verus!
