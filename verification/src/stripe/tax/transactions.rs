//! Tax transactions: recording a calculation as final, and reversing it.

use vstd::prelude::*;
use vstd::string::*;
use crate::text::{pair, pair_views};

verus! {

/// A recorded tax transaction.
pub struct TaxTransaction {
    pub id: String,
}

impl TaxTransaction {
    /// The URL that reverses a transaction.
    pub fn create_reversal_url() -> (r: &'static str)
        ensures
            r@ == "https://api.stripe.com/v1/tax/transactions/create_reversal"@,
    {
        "https://api.stripe.com/v1/tax/transactions/create_reversal"
    }

    /// The form of a full reversal of a transaction.
    pub fn create_reversal_form(tax_transaction_id: &str, reference: &str) -> (r: Vec<(String, String)>)
        ensures
            pair_views(r@) == seq![
                ("reversal[original_transaction]"@, tax_transaction_id@),
                ("reference"@, reference@),
                ("mode"@, "full"@),
            ],
    {
        let mut r: Vec<(String, String)> = Vec::new();
        r.push(pair("reversal[original_transaction]", tax_transaction_id));
        r.push(pair("reference", reference));
        r.push(pair("mode", "full"));
        assert(pair_views(r@) =~= seq![
            ("reversal[original_transaction]"@, tax_transaction_id@),
            ("reference"@, reference@),
            ("mode"@, "full"@),
        ]);
        r
    }

    /// The URL that records a calculation as a transaction.
    pub fn create_from_calculation_url() -> (r: &'static str)
        ensures
            r@ == "https://api.stripe.com/v1/tax/transactions/create_from_calculation"@,
    {
        "https://api.stripe.com/v1/tax/transactions/create_from_calculation"
    }

    /// The form that records a calculation.
    pub fn create_from_calculation_form(tax_calculation_id: &str, reference: &str) -> (r: Vec<(String, String)>)
        ensures
            pair_views(r@) == seq![("calculation"@, tax_calculation_id@), ("reference"@, reference@)],
    {
        let mut r: Vec<(String, String)> = Vec::new();
        r.push(pair("calculation", tax_calculation_id));
        r.push(pair("reference", reference));
        assert(pair_views(r@) =~= seq![("calculation"@, tax_calculation_id@), ("reference"@, reference@)]);
        r
    }

    /// The extra header of the request that records a calculation: the
    /// calculation's id as its `Idempotency-Key`, so that Stripe records at
    /// most one transaction per calculation, however often it is sent.
    pub fn create_from_calculation_headers(tax_calculation_id: &str) -> (r: Vec<(String, String)>)
        ensures
            pair_views(r@) == seq![("Idempotency-Key"@, tax_calculation_id@)],
    {
        let mut r: Vec<(String, String)> = Vec::new();
        r.push(pair("Idempotency-Key", tax_calculation_id));
        assert(pair_views(r@) =~= seq![("Idempotency-Key"@, tax_calculation_id@)]);
        r
    }
}

} // verus!
