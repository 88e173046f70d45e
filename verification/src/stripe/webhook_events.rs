//! Stripe webhook events: the event types this service handles itself and the
//! check of the `Stripe-Signature` header against the endpoint secret.

use vstd::prelude::*;
use vstd::string::*;
use vstd::utf8::*;
use crate::decimal::{decimal_spec, is_digit, lemma_decimal_chars, lemma_parse_render_roundtrip, parse_i64, parse_i64_spec, render_i64};
use crate::digest::{hmac_sha256_spec, hmac_sha256_verify};
use crate::hexcodec::{hex_decode, hex_decode_spec, hex_digit, hex_encode_spec, lemma_hex_roundtrip};
use crate::text::{lemma_split_join, lemma_split_no_sep, split_spec, split_str, str_eq, views};

verus! {

/// Event types that Stripe's published list does not cover but this service
/// receives (`order.completed`, `order.payment_succeeded`).
#[derive(Clone, Copy, Debug, PartialEq, Eq, Structural, Hash)]
pub enum EventTypeExt {
    OrderCompleted,
    OrderPaymentSucceeded,
}

/// The type of a received event: one of the extensions above, or any other
/// Stripe event type, held by its wire name.
#[derive(Clone, Debug, PartialEq, Eq, Hash)]
pub enum EventType {
    Ext(EventTypeExt),
    Other(String),
}

/// The wire name of an extension event type.
pub open spec fn event_type_ext_name(t: EventTypeExt) -> Seq<char> {
    match t {
        EventTypeExt::OrderCompleted => seq!['o', 'r', 'd', 'e', 'r', '.', 'c', 'o', 'm', 'p', 'l', 'e', 't', 'e', 'd'],
        EventTypeExt::OrderPaymentSucceeded => seq![
            'o', 'r', 'd', 'e', 'r', '.', 'p', 'a', 'y', 'm', 'e', 'n', 't', '_', 's', 'u', 'c', 'c', 'e', 'e', 'd', 'e', 'd',
        ],
    }
}

impl EventTypeExt {
    /// The wire name (`type` field) of the event type.
    pub fn as_str(self) -> (r: &'static str)
        ensures
            r@ == event_type_ext_name(self),
    {
        match self {
            EventTypeExt::OrderCompleted => {
                let r = "order.completed";
                proof {
                    reveal_strlit("order.completed");
                }
                assert(r@ =~= event_type_ext_name(self));
                r
            },
            EventTypeExt::OrderPaymentSucceeded => {
                let r = "order.payment_succeeded";
                proof {
                    reveal_strlit("order.payment_succeeded");
                }
                assert(r@ =~= event_type_ext_name(self));
                r
            },
        }
    }
}

/// How the `type` field of an event is read: the extension whose name it is,
/// tried first, or else any other type by its name.
pub open spec fn event_type_of_name(name: Seq<char>) -> Option<EventTypeExt> {
    if name == event_type_ext_name(EventTypeExt::OrderCompleted) {
        Some(EventTypeExt::OrderCompleted)
    } else if name == event_type_ext_name(EventTypeExt::OrderPaymentSucceeded) {
        Some(EventTypeExt::OrderPaymentSucceeded)
    } else {
        None
    }
}

impl EventType {
    /// Reads an event type from its wire name.
    pub fn from_name(name: &str) -> (r: EventType)
        ensures
            event_type_of_name(name@) matches Some(e) ==> r == EventType::Ext(e),
            event_type_of_name(name@) is None ==> (r matches EventType::Other(s) && s@ == name@),
    {
        if str_eq(name, EventTypeExt::OrderCompleted.as_str()) {
            EventType::Ext(EventTypeExt::OrderCompleted)
        } else if str_eq(name, EventTypeExt::OrderPaymentSucceeded.as_str()) {
            EventType::Ext(EventTypeExt::OrderPaymentSucceeded)
        } else {
            EventType::Other(name.to_owned())
        }
    }
}

/// Why a webhook request was refused.
#[derive(Clone, Copy, Debug, PartialEq, Eq, Structural)]
pub enum WebhookError {
    /// The endpoint secret was not accepted as an HMAC key.
    BadKey,
    /// The timestamp in the signature header is not a decimal `i64`.
    BadHeader,
    /// The signature header lacks a part, or the signature does not match.
    BadSignature,
    /// The payload is not a well-formed event.
    BadParse,
}

/// The key and value of one `key=value` part of a header: the text before the
/// first `=` and the text between it and the next `=` (or the end); parts
/// without `=` have none.
pub open spec fn header_entry(h: Seq<char>) -> Option<(Seq<char>, Seq<char>)> {
    let parts = split_spec(h, '=');
    if parts.len() >= 2 {
        Some((parts[0], parts[1]))
    } else {
        None
    }
}

/// The value of the last part with the given key.
pub open spec fn lookup_last(pieces: Seq<Seq<char>>, key: Seq<char>) -> Option<Seq<char>>
    decreases pieces.len(),
{
    if pieces.len() == 0 {
        None
    } else {
        match header_entry(pieces.last()) {
            Some((k, v)) if k == key => Some(v),
            _ => lookup_last(pieces.drop_last(), key),
        }
    }
}

/// The value for `key` in a comma-separated `key=value` header; a later part
/// replaces an earlier one with the same key.
pub open spec fn header_value(raw: Seq<char>, key: Seq<char>) -> Option<Seq<char>> {
    lookup_last(split_spec(raw, ','), key)
}

pub open spec fn t_key() -> Seq<char> {
    seq!['t']
}

pub open spec fn v1_key() -> Seq<char> {
    seq!['v', '1']
}

/// What reading a `Stripe-Signature` header gives: the timestamp `t` (read as
/// an `i64`) and the `v1` signature; a missing part is a bad signature, an
/// unreadable timestamp a bad header.
pub open spec fn signature_spec(raw: Seq<char>) -> Result<(i64, Seq<char>), WebhookError> {
    match header_value(raw, t_key()) {
        None => Err(WebhookError::BadSignature),
        Some(t) => match header_value(raw, v1_key()) {
            None => Err(WebhookError::BadSignature),
            Some(v1) => match parse_i64_spec(t) {
                None => Err(WebhookError::BadHeader),
                Some(n) => Ok((n, v1)),
            },
        },
    }
}

/// The text that Stripe signs: the timestamp, a dot, and the payload.
pub open spec fn signed_payload_spec(t: i64, payload: Seq<char>) -> Seq<char> {
    decimal_spec(t as int) + seq!['.'] + payload
}

/// The verdict on a webhook request: the header is read, its `v1` signature
/// decoded from hex, and compared with the HMAC-SHA256 of the signed payload
/// under the endpoint secret.
pub open spec fn construct_event_spec(
    payload: Seq<char>,
    sig: Seq<char>,
    secret: Seq<char>,
) -> Result<(), WebhookError> {
    match signature_spec(sig) {
        Err(e) => Err(e),
        Ok((t, v1)) => match hex_decode_spec(v1) {
            None => Err(WebhookError::BadSignature),
            Some(tag) => if tag == hmac_sha256_spec(
                encode_utf8(secret),
                encode_utf8(signed_payload_spec(t, payload)),
            ) {
                Ok(())
            } else {
                Err(WebhookError::BadSignature)
            },
        },
    }
}

pub open spec fn opt_view(o: Option<String>) -> Option<Seq<char>> {
    match o {
        Some(s) => Some(s@),
        None => None,
    }
}

/// The parts of a `Stripe-Signature` header that are used.
pub struct Signature {
    pub t: i64,
    pub v1: String,
}

impl Signature {
    /// Reads a `Stripe-Signature` header such as `t=1492774577,v1=5257a8...`.
    pub fn parse(raw: &str) -> (r: Result<Signature, WebhookError>)
        ensures
            r matches Ok(s) ==> signature_spec(raw@) == Ok::<(i64, Seq<char>), WebhookError>((s.t, s.v1@)),
            r matches Err(e) ==> signature_spec(raw@) == Err::<(i64, Seq<char>), WebhookError>(e),
    {
        let pieces = split_str(raw, ',');
        let mut t: Option<String> = None;
        let mut v1: Option<String> = None;
        let mut j: usize = 0;
        proof {
            reveal_strlit("t");
            reveal_strlit("v1");
        }
        assert(views(pieces@).take(0) =~= Seq::<Seq<char>>::empty());
        while j < pieces.len()
            invariant
                views(pieces@) == split_spec(raw@, ','),
                j <= pieces.len(),
                "t"@ == t_key(),
                "v1"@ == v1_key(),
                opt_view(t) == lookup_last(views(pieces@).take(j as int), t_key()),
                opt_view(v1) == lookup_last(views(pieces@).take(j as int), v1_key()),
            decreases pieces.len() - j,
        {
            let parts = split_str(pieces[j].as_str(), '=');
            let ghost ps = views(pieces@).take(j + 1);
            assert(ps.drop_last() =~= views(pieces@).take(j as int));
            assert(ps.last() == pieces@[j as int]@);
            if parts.len() >= 2 {
                assert(header_entry(ps.last()) == Some((parts@[0]@, parts@[1]@)));
                if str_eq(parts[0].as_str(), "t") {
                    t = Some(parts[1].clone());
                }
                if str_eq(parts[0].as_str(), "v1") {
                    v1 = Some(parts[1].clone());
                }
            } else {
                assert(header_entry(ps.last()) is None);
            }
            j = j + 1;
        }
        assert(views(pieces@).take(pieces.len() as int) =~= views(pieces@));
        let t = match t {
            None => return Err(WebhookError::BadSignature),
            Some(t) => t,
        };
        let v1 = match v1 {
            None => return Err(WebhookError::BadSignature),
            Some(v1) => v1,
        };
        match parse_i64(t.as_str()) {
            None => Err(WebhookError::BadHeader),
            Some(n) => Ok(Signature { t: n, v1 }),
        }
    }
}

/// Checks of webhook requests.
pub struct Webhook;

impl Webhook {
    /// Checks a webhook request's `Stripe-Signature` header `sig` against the
    /// raw `payload` and the endpoint `secret`; reading the payload itself as
    /// an event comes after this check succeeds.
    pub fn verify(payload: &str, sig: &str, secret: &str) -> (r: Result<(), WebhookError>)
        ensures
            r == construct_event_spec(payload@, sig@, secret@),
    {
        let signature = match Signature::parse(sig) {
            Ok(s) => s,
            Err(e) => return Err(e),
        };
        let signed_payload = render_i64(signature.t).concat(".").concat(payload);
        proof {
            reveal_strlit(".");
        }
        assert(signed_payload@ =~= signed_payload_spec(signature.t, payload@));
        let tag = match hex_decode(signature.v1.as_str()) {
            None => return Err(WebhookError::BadSignature),
            Some(tag) => tag,
        };
        match hmac_sha256_verify(secret.as_bytes(), signed_payload.as_str().as_bytes(), tag.as_slice()) {
            None => Err(WebhookError::BadKey),
            Some(true) => Ok(()),
            Some(false) => Err(WebhookError::BadSignature),
        }
    }
}


/// The header as Stripe writes it: `t=<timestamp>,v1=<signature>`.
pub open spec fn signature_header_spec(t: i64, v1: Seq<char>) -> Seq<char> {
    seq!['t', '='] + decimal_spec(t as int) + seq![','] + seq!['v', '1', '='] + v1
}

proof fn lemma_entry(k: Seq<char>, v: Seq<char>)
    requires
        !k.contains('='),
        !v.contains('='),
    ensures
        header_entry(k + seq!['='] + v) == Some((k, v)),
{
    lemma_split_join(k, v, '=');
    lemma_split_no_sep(k, '=');
    lemma_split_no_sep(v, '=');
}

/// A header written as Stripe writes it reads back as its timestamp and
/// signature, for every signature text without `,` or `=`.
pub proof fn lemma_signature_roundtrip(t: i64, v1: Seq<char>)
    requires
        !v1.contains(','),
        !v1.contains('='),
    ensures
        signature_spec(signature_header_spec(t, v1)) == Ok::<(i64, Seq<char>), WebhookError>((t, v1)),
{
    let d = decimal_spec(t as int);
    lemma_decimal_chars(t as int);
    assert(!d.contains(',') && !d.contains('=')) by {
        if d.contains(',') || d.contains('=') {
            let k = choose|k: int| 0 <= k < d.len() && (d[k] == ',' || d[k] == '=');
            assert(is_digit(d[k]) || d[k] == '-');
        }
    }
    let a = seq!['t', '='] + d;
    let b = seq!['v', '1', '='] + v1;
    assert(signature_header_spec(t, v1) =~= a + seq![','] + b);
    assert(!a.contains(',')) by {
        if a.contains(',') {
            let k = choose|k: int| 0 <= k < a.len() && a[k] == ',';
            if k >= 2 {
                assert(a[k] == d[k - 2]);
            }
        }
    }
    assert(!b.contains(',')) by {
        if b.contains(',') {
            let k = choose|k: int| 0 <= k < b.len() && b[k] == ',';
            if k >= 3 {
                assert(b[k] == v1[k - 3]);
            }
        }
    }
    lemma_split_join(a, b, ',');
    lemma_split_no_sep(a, ',');
    lemma_split_no_sep(b, ',');
    let pieces = split_spec(signature_header_spec(t, v1), ',');
    assert(pieces =~= seq![a, b]);
    assert(a =~= seq!['t'] + seq!['='] + d);
    assert(b =~= seq!['v', '1'] + seq!['='] + v1);
    lemma_entry(seq!['t'], d);
    lemma_entry(seq!['v', '1'], v1);
    assert(pieces.drop_last() =~= seq![a]);
    assert(seq![a].drop_last() =~= Seq::<Seq<char>>::empty());
    assert(seq!['v', '1'] != t_key());
    assert(seq!['t'] != v1_key());
    assert(lookup_last(seq![a], t_key()) == Some(d));
    assert(lookup_last(pieces, t_key()) == Some(d));
    assert(lookup_last(pieces, v1_key()) == Some(v1));
    lemma_parse_render_roundtrip(t);
}

/// A request whose header carries the timestamp and the hex HMAC-SHA256 of
/// `<timestamp>.<payload>` under the endpoint secret, as Stripe signs it, is
/// accepted.
pub proof fn lemma_signed_request_accepted(payload: Seq<char>, secret: Seq<char>, t: i64)
    ensures
        construct_event_spec(
            payload,
            signature_header_spec(
                t,
                hex_encode_spec(
                    hmac_sha256_spec(encode_utf8(secret), encode_utf8(signed_payload_spec(t, payload))),
                ),
            ),
            secret,
        ) == Ok::<(), WebhookError>(()),
{
    let tag = hmac_sha256_spec(encode_utf8(secret), encode_utf8(signed_payload_spec(t, payload)));
    let h = hex_encode_spec(tag);
    assert(!h.contains(',') && !h.contains('=')) by {
        if h.contains(',') || h.contains('=') {
            let k = choose|k: int| 0 <= k < h.len() && (h[k] == ',' || h[k] == '=');
            let d = if k % 2 == 0 { (tag[k / 2] / 16) as int } else { (tag[k / 2] % 16) as int };
            assert(h[k] == hex_digit(d));
        }
    }
    lemma_signature_roundtrip(t, h);
    lemma_hex_roundtrip(tag);
}

} // verus!
