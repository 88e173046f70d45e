//! `/coach/stripe-login-links`: a link to the dashboard of a coach's Stripe
//! account.

use vstd::prelude::*;

verus! {

/// The dashboard link.
pub struct LoginLink {
    pub url: String,
}

/// The page to come back to.
pub struct CreateLoginLinkMutation {
    pub return_url: String,
}

} // verus!
