//! `/player/stripe-checkout-sessions`: a Stripe Checkout page where a player
//! saves a card.

use vstd::prelude::*;

verus! {

/// The checkout page's link.
pub struct CheckoutSession {
    pub url: String,
}

/// Where the checkout page sends the player on success and on cancel.
pub struct CreateCheckoutSessionMutation {
    pub success_url: String,
    pub cancel_url: String,
}

/// The parameters of a checkout session.
pub struct CheckoutSessionParams {
    pub success_url: String,
    pub cancel_url: String,
    pub customer: String,
    /// The session only sets up a payment method.
    pub mode: &'static str,
    pub payment_method_types: Vec<&'static str>,
}

/// A session in setup mode, for cards, for the player's customer.
pub fn session_params(req: &CreateCheckoutSessionMutation, customer_id: &str) -> (r: CheckoutSessionParams)
    ensures
        r.success_url@ == req.success_url@,
        r.cancel_url@ == req.cancel_url@,
        r.customer@ == customer_id@,
        r.mode@ == "setup"@,
        r.payment_method_types@.len() == 1 && r.payment_method_types@[0]@ == "card"@,
{
    let mut types: Vec<&'static str> = Vec::new();
    types.push("card");
    CheckoutSessionParams {
        success_url: req.success_url.clone(),
        cancel_url: req.cancel_url.clone(),
        customer: String::from_str(customer_id),
        mode: "setup",
        payment_method_types: types,
    }
}

} // verus!
