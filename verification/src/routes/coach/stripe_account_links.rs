//! `/coach/stripe-account-links`: a link to the onboarding of a coach's
//! Stripe account, with the pages to come back to.

use vstd::prelude::*;

verus! {

/// The onboarding link.
pub struct AccountLink {
    pub url: String,
}

/// The pages to come back to: when the link expires, and when done.
pub struct CreateAccountLinkMutation {
    pub refresh_url: String,
    pub return_url: String,
}

/// The kind of link made.
pub fn link_type() -> (r: &'static str)
    ensures
        r@ == "account_onboarding"@,
{
    "account_onboarding"
}

} // verus!
