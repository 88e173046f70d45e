//! Tax calculations for a customer and an amount.

use vstd::prelude::*;
use vstd::string::*;
use crate::decimal::{decimal_spec, render_i64};
use crate::text::{pair, pair_views};

verus! {

/// A tax calculation: its id and the total with tax.
pub struct TaxCalculation {
    pub id: String,
    pub amount_total: i64,
}

/// The tax of the calculation's line item.
#[derive(Clone, Copy)]
pub struct TaxCalculationLineItem {
    pub amount_tax: i64,
}

/// Where tax calculations are created.
pub open spec fn calculations_url() -> Seq<char> {
    "https://api.stripe.com/v1/tax/calculations"@
}

impl TaxCalculation {
    /// The URL that creates a calculation.
    pub fn create_url() -> (r: &'static str)
        ensures
            r@ == calculations_url(),
    {
        "https://api.stripe.com/v1/tax/calculations"
    }

    /// The form of a calculation for one line item of `price` (in cents,
    /// dollars) for a customer, with reference `0`.
    pub fn create_form(customer_id: &str, price: i64) -> (r: Vec<(String, String)>)
        ensures
            pair_views(r@) == seq![
                ("currency"@, "usd"@),
                ("customer"@, customer_id@),
                ("line_items[0][amount]"@, decimal_spec(price as int)),
                ("line_items[0][reference]"@, "0"@),
            ],
    {
        let mut r: Vec<(String, String)> = Vec::new();
        r.push(pair("currency", "usd"));
        r.push(pair("customer", customer_id));
        r.push((String::from_str("line_items[0][amount]"), render_i64(price)));
        r.push(pair("line_items[0][reference]", "0"));
        assert(pair_views(r@) =~= seq![
            ("currency"@, "usd"@),
            ("customer"@, customer_id@),
            ("line_items[0][amount]"@, decimal_spec(price as int)),
            ("line_items[0][reference]"@, "0"@),
        ]);
        r
    }
}

impl TaxCalculationLineItem {
    /// The URL listing a calculation's line items.
    pub fn retrieve_url(tax_calculation_id: &str) -> (r: String)
        ensures
            r@ == "https://api.stripe.com/v1/tax/calculations/"@ + tax_calculation_id@ + "/line_items"@,
    {
        String::from_str("https://api.stripe.com/v1/tax/calculations/").concat(tax_calculation_id).concat(
            "/line_items",
        )
    }

    /// The line item of a calculation: the first of the listed ones.
    pub fn first(items: &Vec<TaxCalculationLineItem>) -> (r: TaxCalculationLineItem)
        requires
            items@.len() > 0,
        ensures
            r == items@[0],
    {
        items[0]
    }
}

} // verus!
