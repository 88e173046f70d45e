//! `/player/stripe-billing-portal-sessions`: a link to Stripe's billing
//! portal for the player's customer.

use vstd::prelude::*;
use crate::text::{pair, pair_views};

verus! {

/// The portal's link.
pub struct BillingPortalLink {
    pub url: String,
}

/// Where the portal sends the player back to.
pub struct CreateBillingPortalSession {
    pub return_url: String,
}

/// The form that opens a portal session: the return URL and the customer.
pub fn session_form(req: &CreateBillingPortalSession, customer_id: &str) -> (r: Vec<(String, String)>)
    ensures
        pair_views(r@) == seq![("return_url"@, req.return_url@), ("customer"@, customer_id@)],
{
    let mut r: Vec<(String, String)> = Vec::new();
    r.push(pair("return_url", req.return_url.as_str()));
    r.push(pair("customer", customer_id));
    assert(pair_views(r@) =~= seq![("return_url"@, req.return_url@), ("customer"@, customer_id@)]);
    r
}

} // verus!
