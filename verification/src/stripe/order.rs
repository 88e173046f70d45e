//! Stripe orders: their statuses, the amounts and taxes they report, and the
//! parameters for creating, updating and submitting them. Objects of Stripe's
//! own API (prices, discounts, tax rates, addresses) are held as their JSON
//! text and ids as their string form; currencies are lowercase ISO codes.

use vstd::prelude::*;
use vstd::string::*;
use crate::stripe::ids::OrderId;

verus! {

/// Current order status: one of `created`, `paid`, `canceled`, `fulfilled`
/// or `returned`.
#[derive(Clone, Copy, Debug, PartialEq, Eq, Structural)]
pub enum OrderStatus {
    Created,
    Paid,
    Canceled,
    Fulfilled,
    Returned,
}

/// The wire name of each variant.
pub open spec fn order_status_name(s: OrderStatus) -> Seq<char> {
    match s {
        OrderStatus::Created => "created"@,
        OrderStatus::Paid => "paid"@,
        OrderStatus::Canceled => "canceled"@,
        OrderStatus::Fulfilled => "fulfilled"@,
        OrderStatus::Returned => "returned"@,
    }
}

impl OrderStatus {
    /// The wire name of the value, as the API writes it.
    pub fn as_str(self) -> (r: &'static str)
        ensures
            r@ == order_status_name(self),
    {
        match self {
            OrderStatus::Created => "created",
            OrderStatus::Paid => "paid",
            OrderStatus::Canceled => "canceled",
            OrderStatus::Fulfilled => "fulfilled",
            OrderStatus::Returned => "returned",
        }
    }
}

impl Default for OrderStatus {
    /// An order begins as created.
    fn default() -> (r: OrderStatus)
        ensures
            r == OrderStatus::Created,
    {
        OrderStatus::Created
    }
}

/// Distinct values have distinct wire names.
pub proof fn lemma_order_status_name_distinct(a: OrderStatus, b: OrderStatus)
    requires
        a != b,
    ensures
        order_status_name(a) != order_status_name(b),
{
    reveal_strlit("created");
    reveal_strlit("paid");
    reveal_strlit("canceled");
    reveal_strlit("fulfilled");
    reveal_strlit("returned");
    match (a, b) {
        (OrderStatus::Canceled, OrderStatus::Returned) => {
            assert(order_status_name(a)[0] != order_status_name(b)[0]);
        },
        (OrderStatus::Returned, OrderStatus::Canceled) => {
            assert(order_status_name(a)[0] != order_status_name(b)[0]);
        },
        _ => {
            assert(order_status_name(a).len() != order_status_name(b).len());
        },
    }
}

/// The status of the most recent automated tax calculation for an order.
#[derive(Clone, Copy, Debug, PartialEq, Eq, Structural)]
pub enum OrderAutomaticTaxStatus {
    Complete,
    Failed,
    RequiresLocationInputs,
}

/// The wire name of each variant.
pub open spec fn automatic_tax_status_name(s: OrderAutomaticTaxStatus) -> Seq<char> {
    match s {
        OrderAutomaticTaxStatus::Complete => "complete"@,
        OrderAutomaticTaxStatus::Failed => "failed"@,
        OrderAutomaticTaxStatus::RequiresLocationInputs => "requires_location_inputs"@,
    }
}

impl OrderAutomaticTaxStatus {
    /// The wire name of the value, as the API writes it.
    pub fn as_str(self) -> (r: &'static str)
        ensures
            r@ == automatic_tax_status_name(self),
    {
        match self {
            OrderAutomaticTaxStatus::Complete => "complete",
            OrderAutomaticTaxStatus::Failed => "failed",
            OrderAutomaticTaxStatus::RequiresLocationInputs => "requires_location_inputs",
        }
    }
}

impl Default for OrderAutomaticTaxStatus {
    fn default() -> (r: OrderAutomaticTaxStatus)
        ensures
            r == OrderAutomaticTaxStatus::Complete,
    {
        OrderAutomaticTaxStatus::Complete
    }
}

/// Distinct values have distinct wire names.
pub proof fn lemma_automatic_tax_status_name_distinct(a: OrderAutomaticTaxStatus, b: OrderAutomaticTaxStatus)
    requires
        a != b,
    ensures
        automatic_tax_status_name(a) != automatic_tax_status_name(b),
{
    reveal_strlit("complete");
    reveal_strlit("failed");
    reveal_strlit("requires_location_inputs");
    match (a, b) {
        _ => {
            assert(automatic_tax_status_name(a).len() != automatic_tax_status_name(b).len());
        },
    }
}

/// The possible values of an order's `tax_exempt` field.
#[derive(Clone, Copy, Debug, PartialEq, Eq, Structural)]
pub enum OrderTaxExempt {
    Exempt,
    NotExempt,
    Reverse,
}

/// The wire name of each variant.
pub open spec fn tax_exempt_name(s: OrderTaxExempt) -> Seq<char> {
    match s {
        OrderTaxExempt::Exempt => "exempt"@,
        OrderTaxExempt::NotExempt => "none"@,
        OrderTaxExempt::Reverse => "reverse"@,
    }
}

impl OrderTaxExempt {
    /// The wire name of the value, as the API writes it.
    pub fn as_str(self) -> (r: &'static str)
        ensures
            r@ == tax_exempt_name(self),
    {
        match self {
            OrderTaxExempt::Exempt => "exempt",
            OrderTaxExempt::NotExempt => "none",
            OrderTaxExempt::Reverse => "reverse",
        }
    }
}

impl Default for OrderTaxExempt {
    fn default() -> (r: OrderTaxExempt)
        ensures
            r == OrderTaxExempt::Exempt,
    {
        OrderTaxExempt::Exempt
    }
}

/// Distinct values have distinct wire names.
pub proof fn lemma_tax_exempt_name_distinct(a: OrderTaxExempt, b: OrderTaxExempt)
    requires
        a != b,
    ensures
        tax_exempt_name(a) != tax_exempt_name(b),
{
    reveal_strlit("exempt");
    reveal_strlit("none");
    reveal_strlit("reverse");
    match (a, b) {
        _ => {
            assert(tax_exempt_name(a).len() != tax_exempt_name(b).len());
        },
    }
}

/// The payment method types an order's payment may use.
#[derive(Clone, Copy, Debug, PartialEq, Eq, Structural)]
pub enum OrderPaymentSettingsPaymentMethodType {
    Card,
    Ideal,
    SepaDebit,
    Eps,
    WechatPay,
    Oxxo,
    Bancontact,
    Alipay,
    P24,
    BacsDebit,
    Giropay,
    Sofort,
    AuBecsDebit,
    Fpx,
    Klarna,
    Paypal,
    AcssDebit,
    Grabpay,
    AfterpayClearpay,
}

/// The wire name of each variant.
pub open spec fn payment_method_type_name(s: OrderPaymentSettingsPaymentMethodType) -> Seq<char> {
    match s {
        OrderPaymentSettingsPaymentMethodType::Card => "card"@,
        OrderPaymentSettingsPaymentMethodType::Ideal => "ideal"@,
        OrderPaymentSettingsPaymentMethodType::SepaDebit => "sepa_debit"@,
        OrderPaymentSettingsPaymentMethodType::Eps => "eps"@,
        OrderPaymentSettingsPaymentMethodType::WechatPay => "wechat_pay"@,
        OrderPaymentSettingsPaymentMethodType::Oxxo => "oxxo"@,
        OrderPaymentSettingsPaymentMethodType::Bancontact => "bancontact"@,
        OrderPaymentSettingsPaymentMethodType::Alipay => "alipay"@,
        OrderPaymentSettingsPaymentMethodType::P24 => "p24"@,
        OrderPaymentSettingsPaymentMethodType::BacsDebit => "bacs_debit"@,
        OrderPaymentSettingsPaymentMethodType::Giropay => "giropay"@,
        OrderPaymentSettingsPaymentMethodType::Sofort => "sofort"@,
        OrderPaymentSettingsPaymentMethodType::AuBecsDebit => "au_becs_debit"@,
        OrderPaymentSettingsPaymentMethodType::Fpx => "fpx"@,
        OrderPaymentSettingsPaymentMethodType::Klarna => "klarna"@,
        OrderPaymentSettingsPaymentMethodType::Paypal => "paypal"@,
        OrderPaymentSettingsPaymentMethodType::AcssDebit => "acss_debit"@,
        OrderPaymentSettingsPaymentMethodType::Grabpay => "grabpay"@,
        OrderPaymentSettingsPaymentMethodType::AfterpayClearpay => "afterpay_clearpay"@,
    }
}

impl OrderPaymentSettingsPaymentMethodType {
    /// The wire name of the value, as the API writes it.
    pub fn as_str(self) -> (r: &'static str)
        ensures
            r@ == payment_method_type_name(self),
    {
        match self {
            OrderPaymentSettingsPaymentMethodType::Card => "card",
            OrderPaymentSettingsPaymentMethodType::Ideal => "ideal",
            OrderPaymentSettingsPaymentMethodType::SepaDebit => "sepa_debit",
            OrderPaymentSettingsPaymentMethodType::Eps => "eps",
            OrderPaymentSettingsPaymentMethodType::WechatPay => "wechat_pay",
            OrderPaymentSettingsPaymentMethodType::Oxxo => "oxxo",
            OrderPaymentSettingsPaymentMethodType::Bancontact => "bancontact",
            OrderPaymentSettingsPaymentMethodType::Alipay => "alipay",
            OrderPaymentSettingsPaymentMethodType::P24 => "p24",
            OrderPaymentSettingsPaymentMethodType::BacsDebit => "bacs_debit",
            OrderPaymentSettingsPaymentMethodType::Giropay => "giropay",
            OrderPaymentSettingsPaymentMethodType::Sofort => "sofort",
            OrderPaymentSettingsPaymentMethodType::AuBecsDebit => "au_becs_debit",
            OrderPaymentSettingsPaymentMethodType::Fpx => "fpx",
            OrderPaymentSettingsPaymentMethodType::Klarna => "klarna",
            OrderPaymentSettingsPaymentMethodType::Paypal => "paypal",
            OrderPaymentSettingsPaymentMethodType::AcssDebit => "acss_debit",
            OrderPaymentSettingsPaymentMethodType::Grabpay => "grabpay",
            OrderPaymentSettingsPaymentMethodType::AfterpayClearpay => "afterpay_clearpay",
        }
    }
}

impl Default for OrderPaymentSettingsPaymentMethodType {
    fn default() -> (r: OrderPaymentSettingsPaymentMethodType)
        ensures
            r == OrderPaymentSettingsPaymentMethodType::Card,
    {
        OrderPaymentSettingsPaymentMethodType::Card
    }
}

/// Distinct values have distinct wire names.
pub proof fn lemma_payment_method_type_name_distinct(a: OrderPaymentSettingsPaymentMethodType, b: OrderPaymentSettingsPaymentMethodType)
    requires
        a != b,
    ensures
        payment_method_type_name(a) != payment_method_type_name(b),
{
    reveal_strlit("card");
    reveal_strlit("ideal");
    reveal_strlit("sepa_debit");
    reveal_strlit("eps");
    reveal_strlit("wechat_pay");
    reveal_strlit("oxxo");
    reveal_strlit("bancontact");
    reveal_strlit("alipay");
    reveal_strlit("p24");
    reveal_strlit("bacs_debit");
    reveal_strlit("giropay");
    reveal_strlit("sofort");
    reveal_strlit("au_becs_debit");
    reveal_strlit("fpx");
    reveal_strlit("klarna");
    reveal_strlit("paypal");
    reveal_strlit("acss_debit");
    reveal_strlit("grabpay");
    reveal_strlit("afterpay_clearpay");
    match (a, b) {
        (OrderPaymentSettingsPaymentMethodType::Card, OrderPaymentSettingsPaymentMethodType::Oxxo) => {
            assert(payment_method_type_name(a)[0] != payment_method_type_name(b)[0]);
        },
        (OrderPaymentSettingsPaymentMethodType::SepaDebit, OrderPaymentSettingsPaymentMethodType::WechatPay) => {
            assert(payment_method_type_name(a)[0] != payment_method_type_name(b)[0]);
        },
        (OrderPaymentSettingsPaymentMethodType::SepaDebit, OrderPaymentSettingsPaymentMethodType::Bancontact) => {
            assert(payment_method_type_name(a)[0] != payment_method_type_name(b)[0]);
        },
        (OrderPaymentSettingsPaymentMethodType::SepaDebit, OrderPaymentSettingsPaymentMethodType::BacsDebit) => {
            assert(payment_method_type_name(a)[0] != payment_method_type_name(b)[0]);
        },
        (OrderPaymentSettingsPaymentMethodType::SepaDebit, OrderPaymentSettingsPaymentMethodType::AcssDebit) => {
            assert(payment_method_type_name(a)[0] != payment_method_type_name(b)[0]);
        },
        (OrderPaymentSettingsPaymentMethodType::Eps, OrderPaymentSettingsPaymentMethodType::P24) => {
            assert(payment_method_type_name(a)[0] != payment_method_type_name(b)[0]);
        },
        (OrderPaymentSettingsPaymentMethodType::Eps, OrderPaymentSettingsPaymentMethodType::Fpx) => {
            assert(payment_method_type_name(a)[0] != payment_method_type_name(b)[0]);
        },
        (OrderPaymentSettingsPaymentMethodType::WechatPay, OrderPaymentSettingsPaymentMethodType::SepaDebit) => {
            assert(payment_method_type_name(a)[0] != payment_method_type_name(b)[0]);
        },
        (OrderPaymentSettingsPaymentMethodType::WechatPay, OrderPaymentSettingsPaymentMethodType::Bancontact) => {
            assert(payment_method_type_name(a)[0] != payment_method_type_name(b)[0]);
        },
        (OrderPaymentSettingsPaymentMethodType::WechatPay, OrderPaymentSettingsPaymentMethodType::BacsDebit) => {
            assert(payment_method_type_name(a)[0] != payment_method_type_name(b)[0]);
        },
        (OrderPaymentSettingsPaymentMethodType::WechatPay, OrderPaymentSettingsPaymentMethodType::AcssDebit) => {
            assert(payment_method_type_name(a)[0] != payment_method_type_name(b)[0]);
        },
        (OrderPaymentSettingsPaymentMethodType::Oxxo, OrderPaymentSettingsPaymentMethodType::Card) => {
            assert(payment_method_type_name(a)[0] != payment_method_type_name(b)[0]);
        },
        (OrderPaymentSettingsPaymentMethodType::Bancontact, OrderPaymentSettingsPaymentMethodType::SepaDebit) => {
            assert(payment_method_type_name(a)[0] != payment_method_type_name(b)[0]);
        },
        (OrderPaymentSettingsPaymentMethodType::Bancontact, OrderPaymentSettingsPaymentMethodType::WechatPay) => {
            assert(payment_method_type_name(a)[0] != payment_method_type_name(b)[0]);
        },
        (OrderPaymentSettingsPaymentMethodType::Bancontact, OrderPaymentSettingsPaymentMethodType::BacsDebit) => {
            assert(payment_method_type_name(a)[2] != payment_method_type_name(b)[2]);
        },
        (OrderPaymentSettingsPaymentMethodType::Bancontact, OrderPaymentSettingsPaymentMethodType::AcssDebit) => {
            assert(payment_method_type_name(a)[0] != payment_method_type_name(b)[0]);
        },
        (OrderPaymentSettingsPaymentMethodType::Alipay, OrderPaymentSettingsPaymentMethodType::Sofort) => {
            assert(payment_method_type_name(a)[0] != payment_method_type_name(b)[0]);
        },
        (OrderPaymentSettingsPaymentMethodType::Alipay, OrderPaymentSettingsPaymentMethodType::Klarna) => {
            assert(payment_method_type_name(a)[0] != payment_method_type_name(b)[0]);
        },
        (OrderPaymentSettingsPaymentMethodType::Alipay, OrderPaymentSettingsPaymentMethodType::Paypal) => {
            assert(payment_method_type_name(a)[0] != payment_method_type_name(b)[0]);
        },
        (OrderPaymentSettingsPaymentMethodType::P24, OrderPaymentSettingsPaymentMethodType::Eps) => {
            assert(payment_method_type_name(a)[0] != payment_method_type_name(b)[0]);
        },
        (OrderPaymentSettingsPaymentMethodType::P24, OrderPaymentSettingsPaymentMethodType::Fpx) => {
            assert(payment_method_type_name(a)[0] != payment_method_type_name(b)[0]);
        },
        (OrderPaymentSettingsPaymentMethodType::BacsDebit, OrderPaymentSettingsPaymentMethodType::SepaDebit) => {
            assert(payment_method_type_name(a)[0] != payment_method_type_name(b)[0]);
        },
        (OrderPaymentSettingsPaymentMethodType::BacsDebit, OrderPaymentSettingsPaymentMethodType::WechatPay) => {
            assert(payment_method_type_name(a)[0] != payment_method_type_name(b)[0]);
        },
        (OrderPaymentSettingsPaymentMethodType::BacsDebit, OrderPaymentSettingsPaymentMethodType::Bancontact) => {
            assert(payment_method_type_name(a)[2] != payment_method_type_name(b)[2]);
        },
        (OrderPaymentSettingsPaymentMethodType::BacsDebit, OrderPaymentSettingsPaymentMethodType::AcssDebit) => {
            assert(payment_method_type_name(a)[0] != payment_method_type_name(b)[0]);
        },
        (OrderPaymentSettingsPaymentMethodType::Giropay, OrderPaymentSettingsPaymentMethodType::Grabpay) => {
            assert(payment_method_type_name(a)[1] != payment_method_type_name(b)[1]);
        },
        (OrderPaymentSettingsPaymentMethodType::Sofort, OrderPaymentSettingsPaymentMethodType::Alipay) => {
            assert(payment_method_type_name(a)[0] != payment_method_type_name(b)[0]);
        },
        (OrderPaymentSettingsPaymentMethodType::Sofort, OrderPaymentSettingsPaymentMethodType::Klarna) => {
            assert(payment_method_type_name(a)[0] != payment_method_type_name(b)[0]);
        },
        (OrderPaymentSettingsPaymentMethodType::Sofort, OrderPaymentSettingsPaymentMethodType::Paypal) => {
            assert(payment_method_type_name(a)[0] != payment_method_type_name(b)[0]);
        },
        (OrderPaymentSettingsPaymentMethodType::Fpx, OrderPaymentSettingsPaymentMethodType::Eps) => {
            assert(payment_method_type_name(a)[0] != payment_method_type_name(b)[0]);
        },
        (OrderPaymentSettingsPaymentMethodType::Fpx, OrderPaymentSettingsPaymentMethodType::P24) => {
            assert(payment_method_type_name(a)[0] != payment_method_type_name(b)[0]);
        },
        (OrderPaymentSettingsPaymentMethodType::Klarna, OrderPaymentSettingsPaymentMethodType::Alipay) => {
            assert(payment_method_type_name(a)[0] != payment_method_type_name(b)[0]);
        },
        (OrderPaymentSettingsPaymentMethodType::Klarna, OrderPaymentSettingsPaymentMethodType::Sofort) => {
            assert(payment_method_type_name(a)[0] != payment_method_type_name(b)[0]);
        },
        (OrderPaymentSettingsPaymentMethodType::Klarna, OrderPaymentSettingsPaymentMethodType::Paypal) => {
            assert(payment_method_type_name(a)[0] != payment_method_type_name(b)[0]);
        },
        (OrderPaymentSettingsPaymentMethodType::Paypal, OrderPaymentSettingsPaymentMethodType::Alipay) => {
            assert(payment_method_type_name(a)[0] != payment_method_type_name(b)[0]);
        },
        (OrderPaymentSettingsPaymentMethodType::Paypal, OrderPaymentSettingsPaymentMethodType::Sofort) => {
            assert(payment_method_type_name(a)[0] != payment_method_type_name(b)[0]);
        },
        (OrderPaymentSettingsPaymentMethodType::Paypal, OrderPaymentSettingsPaymentMethodType::Klarna) => {
            assert(payment_method_type_name(a)[0] != payment_method_type_name(b)[0]);
        },
        (OrderPaymentSettingsPaymentMethodType::AcssDebit, OrderPaymentSettingsPaymentMethodType::SepaDebit) => {
            assert(payment_method_type_name(a)[0] != payment_method_type_name(b)[0]);
        },
        (OrderPaymentSettingsPaymentMethodType::AcssDebit, OrderPaymentSettingsPaymentMethodType::WechatPay) => {
            assert(payment_method_type_name(a)[0] != payment_method_type_name(b)[0]);
        },
        (OrderPaymentSettingsPaymentMethodType::AcssDebit, OrderPaymentSettingsPaymentMethodType::Bancontact) => {
            assert(payment_method_type_name(a)[0] != payment_method_type_name(b)[0]);
        },
        (OrderPaymentSettingsPaymentMethodType::AcssDebit, OrderPaymentSettingsPaymentMethodType::BacsDebit) => {
            assert(payment_method_type_name(a)[0] != payment_method_type_name(b)[0]);
        },
        (OrderPaymentSettingsPaymentMethodType::Grabpay, OrderPaymentSettingsPaymentMethodType::Giropay) => {
            assert(payment_method_type_name(a)[1] != payment_method_type_name(b)[1]);
        },
        _ => {
            assert(payment_method_type_name(a).len() != payment_method_type_name(b).len());
        },
    }
}

/// The possible values of an order payment's `status` field.
#[derive(Clone, Copy, Debug, PartialEq, Eq, Structural)]
pub enum OrderPaymentStatus {
    NotRequired,
    RequiresPaymentMethod,
    RequiresConfirmation,
    RequiresAction,
    Processing,
    Complete,
    RequiresCapture,
    Canceled,
}

/// The wire name of each variant.
pub open spec fn payment_status_name(s: OrderPaymentStatus) -> Seq<char> {
    match s {
        OrderPaymentStatus::NotRequired => "not_required"@,
        OrderPaymentStatus::RequiresPaymentMethod => "requires_payment_method"@,
        OrderPaymentStatus::RequiresConfirmation => "requires_confirmation"@,
        OrderPaymentStatus::RequiresAction => "requires_action"@,
        OrderPaymentStatus::Processing => "processing"@,
        OrderPaymentStatus::Complete => "complete"@,
        OrderPaymentStatus::RequiresCapture => "requires_capture"@,
        OrderPaymentStatus::Canceled => "canceled"@,
    }
}

impl OrderPaymentStatus {
    /// The wire name of the value, as the API writes it.
    pub fn as_str(self) -> (r: &'static str)
        ensures
            r@ == payment_status_name(self),
    {
        match self {
            OrderPaymentStatus::NotRequired => "not_required",
            OrderPaymentStatus::RequiresPaymentMethod => "requires_payment_method",
            OrderPaymentStatus::RequiresConfirmation => "requires_confirmation",
            OrderPaymentStatus::RequiresAction => "requires_action",
            OrderPaymentStatus::Processing => "processing",
            OrderPaymentStatus::Complete => "complete",
            OrderPaymentStatus::RequiresCapture => "requires_capture",
            OrderPaymentStatus::Canceled => "canceled",
        }
    }
}

impl Default for OrderPaymentStatus {
    fn default() -> (r: OrderPaymentStatus)
        ensures
            r == OrderPaymentStatus::NotRequired,
    {
        OrderPaymentStatus::NotRequired
    }
}

/// Distinct values have distinct wire names.
pub proof fn lemma_payment_status_name_distinct(a: OrderPaymentStatus, b: OrderPaymentStatus)
    requires
        a != b,
    ensures
        payment_status_name(a) != payment_status_name(b),
{
    reveal_strlit("not_required");
    reveal_strlit("requires_payment_method");
    reveal_strlit("requires_confirmation");
    reveal_strlit("requires_action");
    reveal_strlit("processing");
    reveal_strlit("complete");
    reveal_strlit("requires_capture");
    reveal_strlit("canceled");
    match (a, b) {
        (OrderPaymentStatus::Complete, OrderPaymentStatus::Canceled) => {
            assert(payment_status_name(a)[1] != payment_status_name(b)[1]);
        },
        (OrderPaymentStatus::Canceled, OrderPaymentStatus::Complete) => {
            assert(payment_status_name(a)[1] != payment_status_name(b)[1]);
        },
        _ => {
            assert(payment_status_name(a).len() != payment_status_name(b).len());
        },
    }
}

/// The `expand` argument of retrieve and list calls.
pub struct Expand<'a> {
    pub expand: &'a [&'a str],
}

impl Expand<'_> {
    /// Whether there is nothing to expand (the argument is then left out).
    pub fn is_empty(expand: &[&str]) -> (r: bool)
        ensures
            r == (expand@.len() == 0),
    {
        expand.len() == 0
    }
}

/// Automatic tax settings of an order.
pub struct OrderAutomaticTax {
    /// Whether automatic tax is enabled for the order.
    pub enabled: bool,
    /// The status of the most recent automated tax calculation.
    pub status: Option<OrderAutomaticTaxStatus>,
}

impl Default for OrderAutomaticTax {
    fn default() -> (r: OrderAutomaticTax)
        ensures
            !r.enabled,
            r.status is None,
    {
        OrderAutomaticTax { enabled: false, status: None }
    }
}

/// Where an order is shipped.
pub struct OrderShippingDetails {
    /// The address (JSON text of a Stripe address).
    pub address: Option<String>,
    pub name: Option<String>,
    pub phone: Option<String>,
}

/// A discount applied across an order.
pub struct OrderTotalDetailsBreakdownDiscount {
    pub amount: i64,
    /// The discount (JSON text of a Stripe discount).
    pub discount: String,
}

/// A tax amount at one rate.
pub struct OrderTax {
    pub amount: i64,
    /// The rate (JSON text of a Stripe tax rate).
    pub rate: String,
}

/// The aggregated line item discounts and taxes.
pub struct OrderTotalDetailsBreakdown {
    pub discounts: Vec<OrderTotalDetailsBreakdownDiscount>,
    pub taxes: Vec<OrderTax>,
}

/// A discount amount of one line item.
pub struct LineItemsDiscountAmount {
    pub amount: i64,
    /// The discount (JSON text of a Stripe discount).
    pub discount: String,
}

/// A tax amount of one line item.
pub struct LineItemsTaxAmount {
    pub amount: i64,
    /// The rate (JSON text of a Stripe tax rate).
    pub rate: String,
}

/// The sums over an order's line items.
pub struct OrderTotalDetails {
    pub amount_discount: i64,
    pub amount_shipping: i64,
    pub amount_tax: i64,
    pub breakdown: Option<OrderTotalDetailsBreakdown>,
}

/// A customer tax id on an order.
pub struct OrderTaxId {
    /// The type of the tax id (`eu_vat`, `us_ein`, ...).
    pub type_: String,
    pub value: Option<String>,
}

/// A customer tax id given when creating an order.
pub struct OrderTaxIds {
    pub type_: Option<String>,
    pub value: Option<String>,
}

/// Settings of an order's payment.
pub struct OrderPaymentSettings {
    pub application_fee_amount: Option<i64>,
    /// Payment-method-specific configuration (JSON text).
    pub payment_method_options: Option<String>,
    pub payment_method_types: Option<Vec<OrderPaymentSettingsPaymentMethodType>>,
    pub return_url: Option<String>,
    pub statement_descriptor: Option<String>,
    pub statement_descriptor_suffix: Option<String>,
    /// Where the funds go (JSON text of Stripe transfer data).
    pub transfer_data: Option<String>,
}

impl OrderPaymentSettings {
    /// Settings with nothing set.
    pub fn new() -> (r: OrderPaymentSettings)
        ensures
            r.application_fee_amount is None,
            r.payment_method_options is None,
            r.payment_method_types is None,
            r.return_url is None,
            r.statement_descriptor is None,
            r.statement_descriptor_suffix is None,
            r.transfer_data is None,
    {
        OrderPaymentSettings {
            application_fee_amount: None,
            payment_method_options: None,
            payment_method_types: None,
            return_url: None,
            statement_descriptor: None,
            statement_descriptor_suffix: None,
            transfer_data: None,
        }
    }
}

/// The payment of an order.
pub struct OrderPayment {
    /// The payment intent (its id).
    pub payment_intent: Option<String>,
    pub settings: OrderPaymentSettings,
    pub status: Option<OrderPaymentStatus>,
}

/// One item of an order.
pub struct OrderLineItem {
    pub amount_discount: i64,
    pub amount_subtotal: i64,
    pub amount_tax: i64,
    pub amount_total: i64,
    pub currency: String,
    pub description: Option<String>,
    /// The discounts (JSON text of Stripe discounts).
    pub discounts: Option<Vec<String>>,
    /// The price (JSON text of a Stripe price).
    pub price: String,
    pub quantity: i64,
    pub taxes: Option<Vec<OrderTax>>,
}

impl OrderLineItem {
    /// The object type name, `item`.
    pub fn object(&self) -> (r: &'static str)
        ensures
            r@ == "item"@,
    {
        "item"
    }
}

/// A Stripe order.
pub struct Order {
    pub id: OrderId,
    pub amount_total: i64,
    pub amount_subtotal: i64,
    /// The Connect application that created the order (its id).
    pub application: Option<String>,
    pub automatic_tax: OrderAutomaticTax,
    /// Billing details (JSON text).
    pub billing_details: Option<String>,
    /// Creation time, in seconds since the Unix epoch.
    pub created: i64,
    pub currency: String,
    /// The customer (its id).
    pub customer: Option<String>,
    pub description: Option<String>,
    /// The discounts (their ids).
    pub discounts: Vec<String>,
    pub ip_address: Option<String>,
    pub livemode: bool,
    pub line_items: Option<Vec<OrderLineItem>>,
    pub metadata: Vec<(String, String)>,
    pub payment: OrderPayment,
    pub status: OrderStatus,
    pub shipping_details: Option<OrderShippingDetails>,
    pub total_details: Option<OrderTotalDetails>,
}

impl Order {
    /// The id of the order.
    pub fn id(&self) -> (r: OrderId)
        ensures
            r@ == self.id@,
    {
        self.id.clone()
    }

    /// The object type name, `order`.
    pub fn object(&self) -> (r: &'static str)
        ensures
            r@ == "order"@,
    {
        "order"
    }

    /// The API path of an order, where it is retrieved and updated.
    pub fn path(id: &OrderId) -> (r: String)
        ensures
            r@ == "/orders/"@ + id@,
    {
        String::from_str("/orders/").concat(id.as_str())
    }

    /// The API path that submits an order.
    pub fn submit_path(id: &OrderId) -> (r: String)
        ensures
            r@ == "/orders/"@ + id@ + "/submit"@,
    {
        String::from_str("/orders/").concat(id.as_str()).concat("/submit")
    }
}

/// A discount on a line item of a new order.
pub struct CreateOrderLineItemDiscount {
    pub coupon: Option<String>,
    pub discount: Option<String>,
}

/// The recurrence of a price created with a line item.
pub struct CreateOrderLineItemPriceDataRecurring {
    /// `day`, `week`, `month` or `year`.
    pub interval: String,
    pub interval_count: Option<u64>,
}

/// A price created with a line item.
pub struct CreateOrderLineItemPriceData {
    pub currency: String,
    /// The product (its id).
    pub product: String,
    pub unit_amount_decimal: Option<String>,
    pub metadata: Option<Vec<(String, String)>>,
    pub recurring: Option<CreateOrderLineItemPriceDataRecurring>,
    /// `inclusive`, `exclusive` or `unspecified`.
    pub tax_behavior: Option<String>,
    pub unit_amount: Option<i64>,
}

impl CreateOrderLineItemPriceData {
    /// Price data for a product in a currency, with nothing else set.
    pub fn new(currency: String, product: String) -> (r: CreateOrderLineItemPriceData)
        ensures
            r.currency == currency,
            r.product == product,
            r.unit_amount_decimal is None,
            r.metadata is None,
            r.recurring is None,
            r.tax_behavior is None,
            r.unit_amount is None,
    {
        CreateOrderLineItemPriceData {
            currency,
            product,
            unit_amount_decimal: None,
            metadata: None,
            recurring: None,
            tax_behavior: None,
            unit_amount: None,
        }
    }
}

/// A line item of a new order.
pub struct CreateOrderLineItem {
    pub description: Option<String>,
    pub discounts: Option<Vec<CreateOrderLineItemDiscount>>,
    /// The price (its id).
    pub price: Option<String>,
    pub price_data: Option<CreateOrderLineItemPriceData>,
    /// The product (its id).
    pub product: Option<String>,
    pub quantity: Option<i64>,
    /// The tax rates (their ids).
    pub tax_rates: Option<Vec<String>>,
}

impl CreateOrderLineItem {
    /// A line item with nothing set.
    pub fn new() -> (r: CreateOrderLineItem)
        ensures
            r.description is None,
            r.discounts is None,
            r.price is None,
            r.price_data is None,
            r.product is None,
            r.quantity is None,
            r.tax_rates is None,
    {
        CreateOrderLineItem {
            description: None,
            discounts: None,
            price: None,
            price_data: None,
            product: None,
            quantity: None,
            tax_rates: None,
        }
    }
}

/// The payment of a new order.
pub struct CreateOrderPayment {
    pub settings: OrderPaymentSettings,
}

/// Automatic tax for a new order.
pub struct CreateOrderAutomaticTax {
    pub enabled: bool,
}

/// A discount on a new order.
pub struct CreateOrderDiscount {
    pub coupon: Option<String>,
    pub discount: Option<String>,
    pub promotion_code: Option<String>,
}

/// Tax details of a new order.
pub struct CreateOrderTaxDetails {
    pub tax_exempt: Option<OrderTaxExempt>,
    pub tax_ids: Option<Vec<OrderTaxIds>>,
}

/// The parameters for creating an order.
pub struct CreateOrder<'a> {
    pub currency: String,
    pub expand: &'a [&'a str],
    pub line_items: Vec<CreateOrderLineItem>,
    /// The customer (its id).
    pub customer: Option<String>,
    pub description: Option<String>,
    pub metadata: Option<Vec<(String, String)>>,
    pub payment: Option<CreateOrderPayment>,
    pub automatic_tax: Option<CreateOrderAutomaticTax>,
    /// Billing details (JSON text).
    pub billing_details: Option<String>,
    pub discounts: Option<Vec<CreateOrderDiscount>>,
    pub ip_address: Option<String>,
    pub shipping_details: Option<OrderShippingDetails>,
    pub tax_details: Option<CreateOrderTaxDetails>,
}

impl<'a> CreateOrder<'a> {
    /// Parameters for an order in a currency with the given items, nothing
    /// else set.
    pub fn new(currency: String, line_items: Vec<CreateOrderLineItem>) -> (r: CreateOrder<'a>)
        ensures
            r.currency == currency,
            r.line_items == line_items,
            r.expand@.len() == 0,
            r.customer is None,
            r.description is None,
            r.metadata is None,
            r.payment is None,
            r.automatic_tax is None,
            r.billing_details is None,
            r.discounts is None,
            r.ip_address is None,
            r.shipping_details is None,
            r.tax_details is None,
    {
        CreateOrder {
            currency,
            line_items,
            expand: &[],
            customer: None,
            description: None,
            metadata: None,
            payment: None,
            automatic_tax: None,
            billing_details: None,
            discounts: None,
            ip_address: None,
            shipping_details: None,
            tax_details: None,
        }
    }
}

/// The parameters for updating an order; what is left unset is unchanged.
pub struct UpdateOrder<'a> {
    pub currency: Option<String>,
    pub expand: &'a [&'a str],
    pub line_items: Option<Vec<CreateOrderLineItem>>,
    pub customer: Option<String>,
    pub description: Option<String>,
    pub metadata: Option<Vec<(String, String)>>,
    pub payment: Option<CreateOrderPayment>,
    pub automatic_tax: Option<CreateOrderAutomaticTax>,
    pub billing_details: Option<String>,
    pub discounts: Option<Vec<CreateOrderDiscount>>,
    pub ip_address: Option<String>,
    pub shipping_details: Option<OrderShippingDetails>,
    pub tax_details: Option<CreateOrderTaxDetails>,
}

impl<'a> UpdateOrder<'a> {
    /// Update parameters that change nothing.
    pub fn new() -> (r: UpdateOrder<'a>)
        ensures
            r.currency is None,
            r.expand@.len() == 0,
            r.line_items is None,
            r.customer is None,
            r.description is None,
            r.metadata is None,
            r.payment is None,
            r.automatic_tax is None,
            r.billing_details is None,
            r.discounts is None,
            r.ip_address is None,
            r.shipping_details is None,
            r.tax_details is None,
    {
        UpdateOrder {
            currency: None,
            line_items: None,
            expand: &[],
            customer: None,
            description: None,
            metadata: None,
            payment: None,
            automatic_tax: None,
            billing_details: None,
            discounts: None,
            ip_address: None,
            shipping_details: None,
            tax_details: None,
        }
    }
}

/// The parameters for submitting an order.
pub struct SubmitOrder<'a> {
    /// The total the customer is expected to pay, as a guard against changes.
    pub expected_total: i64,
    pub expand: &'a [&'a str],
}

impl<'a> SubmitOrder<'a> {
    /// Submission parameters with the expected total and nothing to expand.
    pub fn new(expected_total: i64) -> (r: SubmitOrder<'a>)
        ensures
            r.expected_total == expected_total,
            r.expand@.len() == 0,
    {
        SubmitOrder { expected_total, expand: &[] }
    }
}

} // verus!
