//! `/claims/coaches`: a coach profile for a signed-in identity, with its
//! Stripe account.

use vstd::prelude::*;
use crate::data_types::UserGame;
use crate::routes::coach::account::{is_us, service_agreement};
use crate::validation::{FieldError, check_length, error_views, length_check};

verus! {

/// A new coach profile.
pub struct CreateCoachRequest {
    pub name: String,
    pub bio: String,
    pub games: Vec<UserGame>,
    pub country: String,
}

/// The failures of a new profile: a name and a bio.
pub open spec fn create_coach_errors(req: CreateCoachRequest) -> Seq<(Seq<char>, Seq<char>)> {
    length_check("name"@, req.name@, 1) + length_check("bio"@, req.bio@, 1)
}

impl CreateCoachRequest {
    /// Checks a new profile.
    pub fn validate(&self) -> (r: Vec<FieldError>)
        ensures
            error_views(r@) == create_coach_errors(*self),
            self.name@.len() < 1 ==> error_views(r@).contains(("name"@, "length"@)),
            self.bio@.len() < 1 ==> error_views(r@).contains(("bio"@, "length"@)),
            r@.len() == 0 <==> (self.name@.len() >= 1 && self.bio@.len() >= 1),
    {
        let mut errors: Vec<FieldError> = Vec::new();
        check_length(&mut errors, "name", self.name.as_str(), 1);
        check_length(&mut errors, "bio", self.bio.as_str(), 1);
        assert(error_views(errors@) =~= create_coach_errors(*self));
        errors
    }
}

/// The parameters of the Express account made for a claimed coach profile.
pub struct ClaimedAccountParams {
    /// The kind of connected account: `express`.
    pub account_type: &'static str,
    pub country: String,
    /// Transfers are always requested.
    pub transfers_requested: bool,
    pub service_agreement: &'static str,
    pub product_description: &'static str,
}

/// The parameters of a claimed profile's Stripe account: an Express account
/// in its country, transfers requested, the agreement for the country
/// (`full` in the United States, `recipient` elsewhere) and the product
/// `Ranklab Coach`.
pub fn stripe_account_params(req: &CreateCoachRequest) -> (r: ClaimedAccountParams)
    ensures
        r.account_type@ == "express"@,
        r.country@ == req.country@,
        r.transfers_requested,
        r.service_agreement@ == (if is_us(req.country@) {
            "full"@
        } else {
            "recipient"@
        }),
        r.product_description@ == "Ranklab Coach"@,
{
    ClaimedAccountParams {
        account_type: "express",
        country: req.country.clone(),
        transfers_requested: true,
        service_agreement: service_agreement(req.country.as_str()),
        product_description: "Ranklab Coach",
    }
}

/// The country whose specification lists where coaches may receive transfers.
pub fn country_spec_path() -> (r: &'static str)
    ensures
        r@ == "/country_specs/US"@,
{
    "/country_specs/US"
}

} // verus!
