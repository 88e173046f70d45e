//! Tax calculations of the tax beta API, with both exclusive and inclusive
//! tax amounts.

use vstd::prelude::*;
use vstd::string::*;
use crate::decimal::{decimal_spec, render_i64};
use crate::text::{pair, pair_views};

verus! {

/// A billing address.
pub struct Address {
    pub city: Option<String>,
    pub country: Option<String>,
    pub line1: Option<String>,
    pub line2: Option<String>,
    pub postal_code: Option<String>,
    pub state: Option<String>,
}

/// A tax calculation: the total and the tax on top of or inside it.
pub struct TaxCalculation {
    pub amount_total: i64,
    pub tax_amount_exclusive: i64,
    pub tax_amount_inclusive: i64,
    pub id: String,
}

/// The API version of the tax beta.
pub open spec fn tax_beta_version() -> Seq<char> {
    "2022-08-01;tax_calc_beta=v3;tax_txns_beta=v2"@
}

impl TaxCalculation {
    /// A calculation with the given amounts and id.
    pub fn new(
        amount_total: i64,
        tax_amount_exclusive: i64,
        tax_amount_inclusive: i64,
        id: String,
    ) -> (r: TaxCalculation)
        ensures
            r.amount_total == amount_total,
            r.tax_amount_exclusive == tax_amount_exclusive,
            r.tax_amount_inclusive == tax_amount_inclusive,
            r.id == id,
    {
        TaxCalculation { amount_total, tax_amount_exclusive, tax_amount_inclusive, id }
    }

    /// The API version that the tax beta's requests ask for.
    pub fn beta_version() -> (r: &'static str)
        ensures
            r@ == tax_beta_version(),
    {
        "2022-08-01;tax_calc_beta=v3;tax_txns_beta=v2"
    }

    /// The form of a final (not preview) calculation of a review's price for a
    /// customer, referenced by the review.
    pub fn review_form(customer_id: &str, price: i64, review_id: &str) -> (r: Vec<(String, String)>)
        ensures
            pair_views(r@) == seq![
                ("currency"@, "usd"@),
                ("customer"@, customer_id@),
                ("line_items[][price]"@, decimal_spec(price as int)),
                ("line_items[][reference]"@, review_id@),
                ("preview"@, "false"@),
            ],
    {
        let mut r: Vec<(String, String)> = Vec::new();
        r.push(pair("currency", "usd"));
        r.push(pair("customer", customer_id));
        r.push((String::from_str("line_items[][price]"), render_i64(price)));
        r.push(pair("line_items[][reference]", review_id));
        r.push(pair("preview", "false"));
        assert(pair_views(r@) =~= seq![
            ("currency"@, "usd"@),
            ("customer"@, customer_id@),
            ("line_items[][price]"@, decimal_spec(price as int)),
            ("line_items[][reference]"@, review_id@),
            ("preview"@, "false"@),
        ]);
        r
    }

    /// The URL of a calculation's part named by this calculation's id.
    pub fn get_tax_calculation_url(&self, tax_calculation_id: &str) -> (r: String)
        ensures
            r@ == "https://api.stripe.com/v1/tax/calculations/"@ + tax_calculation_id@ + "/"@ + self.id@,
    {
        String::from_str("https://api.stripe.com/v1/tax/calculations/").concat(tax_calculation_id).concat("/").concat(
            self.id.as_str(),
        )
    }
}

} // verus!
