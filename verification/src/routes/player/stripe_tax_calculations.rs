//! `/player/stripe-tax-calculations`: the tax on a review's price for an
//! address; a final calculation is attached to the review's payment.

use vstd::prelude::*;
use crate::stripe::RequestErrorKind;
use crate::stripe::tax_calculation::Address;

verus! {

/// A tax calculation for a review at an address; a preview is not kept.
pub struct CreateTaxCalculationRequest {
    pub address: Address,
    pub review_id: u128,
    pub preview: bool,
}

/// The tax, in cents, added to the price.
pub struct CreateTaxCalculationResponse {
    pub tax: i64,
}

/// The reference of the calculation's line item: `0` for a preview, none
/// for a final calculation.
pub fn line_item_reference(preview: bool) -> (r: Option<&'static str>)
    ensures
        preview ==> (r matches Some(s) && s@ == "0"@),
        !preview ==> r is None,
{
    if preview {
        Some("0")
    } else {
        None
    }
}

/// Whether the calculation is recorded on the review's payment intent: only
/// a final one.
pub fn records_on_payment(preview: bool) -> (r: bool)
    ensures
        r == !preview,
{
    !preview
}

/// The status of a failed calculation: 400 when Stripe refused it, 500 for
/// any other failure.
pub fn failure_status(kind: RequestErrorKind) -> (r: u16)
    ensures
        r == (if kind == RequestErrorKind::BadRequest {
            400u16
        } else {
            500u16
        }),
{
    match kind {
        RequestErrorKind::BadRequest => 400,
        _ => 500,
    }
}

/// The answer: the tax exclusive of the price.
pub fn response(tax_amount_exclusive: i64) -> (r: CreateTaxCalculationResponse)
    ensures
        r.tax == tax_amount_exclusive,
{
    CreateTaxCalculationResponse { tax: tax_amount_exclusive }
}

} // verus!
