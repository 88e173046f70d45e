//! Stripe object ids: a prefixed string such as `order_1Mx...`, stored in a
//! `SmolStr` so that short ids need no allocation.

use vstd::prelude::*;
use crate::text::starts_with;
use smol_str::SmolStr;

verus! {

#[verifier::external_type_specification]
#[verifier::external_body]
pub struct ExSmolStr(smol_str::SmolStr);

/// The characters a `SmolStr` holds.
pub uninterp spec fn smol_str_chars(s: SmolStr) -> Seq<char>;

/// `SmolStr::new`: a `SmolStr` holding the characters of `s`.
#[verifier::external_body]
fn smol_new(s: &str) -> (r: SmolStr)
    ensures
        smol_str_chars(r) == s@,
{
    SmolStr::new(s)
}

/// `SmolStr::as_str`: the characters the `SmolStr` holds.
#[verifier::external_body]
fn smol_as_str(s: &SmolStr) -> (r: &str)
    ensures
        r@ == smol_str_chars(*s),
{
    s.as_str()
}

/// Why a string was refused as an id.
#[derive(Clone, Debug)]
pub struct ParseIdError {
    pub typename: &'static str,
    pub expected: &'static str,
}

impl ParseIdError {
    /// The error's text: ``invalid `<type>`, expected <what>``.
    pub fn message(&self) -> (r: String)
        ensures
            r@ == "invalid `"@ + self.typename@ + "`, expected "@ + self.expected@,
    {
        String::from_str("invalid `").concat(self.typename).concat("`, expected ").concat(self.expected)
    }

    /// A short description of the error kind.
    pub fn description(&self) -> (r: &'static str)
        ensures
            r@ == "error parsing an id"@,
    {
        "error parsing an id"
    }
}

/// The prefix of every order id.
pub open spec fn order_id_prefix() -> Seq<char> {
    seq!['o', 'r', 'd', 'e', 'r', '_']
}

/// Whether a string is accepted as an order id: it begins with `order_`.
pub open spec fn is_order_id(s: Seq<char>) -> bool {
    order_id_prefix().len() <= s.len() && s.subrange(0, order_id_prefix().len() as int) == order_id_prefix()
}

/// The id of a Stripe order.
#[derive(Debug, PartialEq, Eq, PartialOrd, Ord, Hash)]
pub struct OrderId(SmolStr);

/// `SmolStr::clone`: a `SmolStr` with the same characters.
#[verifier::external_body]
fn smol_clone(s: &SmolStr) -> (r: SmolStr)
    ensures
        smol_str_chars(r) == smol_str_chars(*s),
{
    s.clone()
}

impl Clone for OrderId {
    fn clone(&self) -> (r: OrderId)
        ensures
            r@ == self@,
    {
        OrderId(smol_clone(&self.0))
    }
}

impl Default for OrderId {
    fn default() -> (r: OrderId)
        ensures
            r@ == Seq::<char>::empty(),
    {
        proof {
            reveal_strlit("");
        }
        OrderId(smol_new(""))
    }
}

impl View for OrderId {
    type V = Seq<char>;

    closed spec fn view(&self) -> Seq<char> {
        smol_str_chars(self.0)
    }
}

impl OrderId {
    /// The prefix of the id type, `order_`.
    pub fn prefix() -> (r: &'static str)
        ensures
            r@ == order_id_prefix(),
    {
        proof {
            reveal_strlit("order_");
        }
        "order_"
    }

    /// The whole id.
    pub fn as_str(&self) -> (r: &str)
        ensures
            r@ == self@,
    {
        smol_as_str(&self.0)
    }

    /// Whether the id is the given text.
    pub fn eq_str(&self, other: &str) -> (r: bool)
        ensures
            r == (self@ == other@),
    {
        crate::text::str_eq(self.as_str(), other)
    }

    /// Reads an order id: accepted exactly when it begins with `order_`.
    pub fn parse(s: &str) -> (r: Result<OrderId, ParseIdError>)
        ensures
            r is Ok <==> is_order_id(s@),
            r matches Ok(id) ==> id@ == s@,
            r matches Err(e) ==> e.typename@ == "OrderId"@ && e.expected@
                == "id to start with \"order_\""@,
    {
        if !starts_with(s, Self::prefix()) {
            Err(ParseIdError { typename: "OrderId", expected: "id to start with \"order_\"" })
        } else {
            Ok(OrderId(smol_new(s)))
        }
    }
}

impl std::str::FromStr for OrderId {
    type Err = ParseIdError;

    fn from_str(s: &str) -> (r: Result<OrderId, ParseIdError>)
        ensures
            r is Ok <==> is_order_id(s@),
            r matches Ok(id) ==> id@ == s@,
            r matches Err(e) ==> e.typename@ == "OrderId"@ && e.expected@
                == "id to start with \"order_\""@,
    {
        OrderId::parse(s)
    }
}

/// The texts read as order ids are exactly `order_` followed by anything.
pub proof fn lemma_order_ids_are_prefixed(s: Seq<char>)
    ensures
        is_order_id(s) <==> exists|rest: Seq<char>| s == order_id_prefix() + rest,
{
    if is_order_id(s) {
        let rest = s.subrange(6, s.len() as int);
        assert(s =~= order_id_prefix() + rest);
    }
    if exists|rest: Seq<char>| s == order_id_prefix() + rest {
        let rest = choose|rest: Seq<char>| s == order_id_prefix() + rest;
        assert(s.subrange(0, 6) =~= order_id_prefix());
    }
}

} // verus!
