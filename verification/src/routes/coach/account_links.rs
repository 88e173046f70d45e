//! `/coach/account-links`: a link to the onboarding of a coach's Stripe
//! account.

use vstd::prelude::*;
use crate::text::{pair, pair_views};

verus! {

/// The onboarding link.
pub struct AccountLink {
    pub url: String,
}

/// The form that makes an onboarding link for an account, sending the coach
/// back to a placeholder page either way.
pub fn account_link_form(account_id: &str) -> (r: Vec<(String, String)>)
    ensures
        pair_views(r@) == seq![
            ("account"@, account_id@),
            ("refresh_url"@, "http://example.com"@),
            ("return_url"@, "http://example.com"@),
            ("type"@, "account_onboarding"@),
        ],
{
    let mut r: Vec<(String, String)> = Vec::new();
    r.push(pair("account", account_id));
    r.push(pair("refresh_url", "http://example.com"));
    r.push(pair("return_url", "http://example.com"));
    r.push(pair("type", "account_onboarding"));
    assert(pair_views(r@) =~= seq![
        ("account"@, account_id@),
        ("refresh_url"@, "http://example.com"@),
        ("return_url"@, "http://example.com"@),
        ("type"@, "account_onboarding"@),
    ]);
    r
}

} // verus!
