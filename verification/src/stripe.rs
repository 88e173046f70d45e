//! Stripe: ids, orders, webhook events and tax calls, with the headers and
//! the error kinds of requests to its API.

pub mod ids;
pub mod order;
pub mod tax;
pub mod tax_calculation;
pub mod webhook_events;

use vstd::prelude::*;
use vstd::string::*;
use crate::text::{pair, pair_views};
use crate::digest::{sha256, sha256_spec};
use crate::hexcodec::{hex_encode, hex_encode_spec};
use vstd::utf8::encode_utf8;

verus! {

/// The kinds of failure of a request to Stripe's API.
#[derive(Clone, Copy, Debug, PartialEq, Eq, Structural)]
pub enum RequestErrorKind {
    /// Stripe refused the request (400 Bad Request).
    BadRequest,
    /// Any other failure.
    ServerError,
    /// The object does not exist.
    NotFound,
}

/// The kind of a failed request from its HTTP status, if it had one: only a
/// 400 is a bad request.
pub fn classify_status(status: Option<u16>) -> (r: RequestErrorKind)
    ensures
        r == (if status == Some(400u16) {
            RequestErrorKind::BadRequest
        } else {
            RequestErrorKind::ServerError
        }),
{
    match status {
        Some(400) => RequestErrorKind::BadRequest,
        _ => RequestErrorKind::ServerError,
    }
}

/// The API version that requests ask for.
pub open spec fn api_version() -> Seq<char> {
    "2022-11-15"@
}

/// The headers of every request to Stripe's API: the API version and the
/// secret key as a bearer token.
pub fn build_request_headers(version: &str, secret: &str) -> (r: Vec<(String, String)>)
    ensures
        pair_views(r@) == seq![
            ("Stripe-Version"@, version@),
            ("Authorization"@, "Bearer "@ + secret@),
        ],
{
    let mut r: Vec<(String, String)> = Vec::new();
    r.push(pair("Stripe-Version", version));
    r.push((String::from_str("Authorization"), String::from_str("Bearer ").concat(secret)));
    assert(pair_views(r@) =~= seq![
        ("Stripe-Version"@, version@),
        ("Authorization"@, "Bearer "@ + secret@),
    ]);
    r
}

/// The version string of requests to Stripe's API.
pub fn api_version_str() -> (r: &'static str)
    ensures
        r@ == api_version(),
{
    "2022-11-15"
}

/// The idempotency key of the requests that make an account's Stripe
/// object: the SHA-256 digest of its e-mail (as UTF-8), in lowercase hex, so
/// that a repeated signup cannot make a second object.
pub open spec fn idempotency_key_spec(email: Seq<char>) -> Seq<char> {
    hex_encode_spec(sha256_spec(encode_utf8(email)))
}

/// Computes the idempotency key for an e-mail.
pub fn idempotency_key(email: &str) -> (r: String)
    ensures
        r@ == idempotency_key_spec(email@),
        r@.len() == 64,
{
    let digest = sha256(email.as_bytes());
    hex_encode(digest.as_slice())
}

} // verus!
