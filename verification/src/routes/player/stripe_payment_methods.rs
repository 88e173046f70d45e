//! `/player/stripe-payment-methods`: the cards saved on a player's customer.

use vstd::prelude::*;

verus! {

/// A saved card: its id, brand and last four digits.
pub struct PaymentMethod {
    pub id: String,
    pub brand: String,
    pub last4: String,
}

/// The kind of payment methods listed.
pub fn listed_type() -> (r: &'static str)
    ensures
        r@ == "card"@,
{
    "card"
}

} // verus!
