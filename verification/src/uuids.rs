//! UUIDs, held as 128-bit integers: their text form and fresh random ones,
//! from the `uuid` crate.

use vstd::prelude::*;
use vstd::arithmetic::power::pow;
use crate::hexcodec::hex_digit;

verus! {

/// The `i`-th hexadecimal digit of a UUID, most significant first.
pub open spec fn nibble(x: u128, i: int) -> int {
    ((x as int) / pow(16, (31 - i) as nat)) % 16
}

/// How many hyphens come before position `k` of the text form.
pub open spec fn hyphens_before(k: int) -> int {
    if k < 8 {
        0
    } else if k < 13 {
        1
    } else if k < 18 {
        2
    } else if k < 23 {
        3
    } else {
        4
    }
}

/// The hyphenated lowercase text of a UUID: 32 hex digits in groups of 8, 4,
/// 4, 4 and 12.
pub open spec fn uuid_text(x: u128) -> Seq<char> {
    Seq::new(
        36,
        |k: int|
            if k == 8 || k == 13 || k == 18 || k == 23 {
                '-'
            } else {
                hex_digit(nibble(x, k - hyphens_before(k)))
            },
    )
}

/// Whether a UUID is a random (version 4, RFC 4122 variant) one.
pub open spec fn is_v4(x: u128) -> bool {
    (x >> 76u128) & 0xfu128 == 4u128 && (x >> 62u128) & 0x3u128 == 2u128
}

/// `Uuid::from_u128(x).to_string()`: the hyphenated lowercase text (the
/// crate's `Display` writes `LowerHex` of the hyphenated form).
#[verifier::external_body]
pub(crate) fn uuid_to_text(x: u128) -> (r: String)
    ensures
        r@ == uuid_text(x),
{
    uuid::Uuid::from_u128(x).to_string()
}

/// `Uuid::new_v4().as_u128()`: a random UUID. Which one is chance; the
/// source sets the version and variant bits of every outcome.
#[verifier::external_body]
pub(crate) fn new_uuid_v4() -> (r: u128)
    ensures
        is_v4(r),
{
    uuid::Uuid::new_v4().as_u128()
}

/// The storage key `<prefix><uuid>`.
pub fn object_key(prefix: &str, id: u128) -> (r: String)
    ensures
        r@ == prefix@ + uuid_text(id),
{
    let mut s = prefix.to_owned();
    let t = uuid_to_text(id);
    s.append(t.as_str());
    s
}

/// A fresh storage key `<prefix><random uuid>`.
pub fn new_object_key(prefix: &str) -> (r: String)
    ensures
        exists|u: u128| is_v4(u) && r@ == prefix@ + uuid_text(u),
{
    let id = new_uuid_v4();
    object_key(prefix, id)
}

} // verus!
