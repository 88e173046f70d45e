//! `/player/stripe-billing-details`: the billing details kept on a player's
//! Stripe customer.

use vstd::prelude::*;

verus! {

/// A billing address.
pub struct Address {
    pub city: Option<String>,
    pub country: Option<String>,
    pub line_1: Option<String>,
    pub line_2: Option<String>,
    pub postal_code: Option<String>,
    pub state: Option<String>,
}

/// A customer's billing details.
pub struct BillingDetails {
    pub address: Option<Address>,
    pub name: Option<String>,
    pub phone: Option<String>,
}

/// The status of a change of billing details that Stripe did not make: 422
/// when its API answered 400 (the details are invalid), 500 otherwise.
pub fn update_failure_status(api_status: Option<u16>) -> (r: u16)
    ensures
        r == (if api_status == Some(400u16) {
            422u16
        } else {
            500u16
        }),
{
    match api_status {
        Some(400) => 422,
        _ => 500,
    }
}

} // verus!
