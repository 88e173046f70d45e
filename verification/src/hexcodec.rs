//! Hexadecimal text for byte strings, as the `hex` crate reads and writes it.

use vstd::prelude::*;

verus! {

/// The value of one hexadecimal digit, either case.
pub open spec fn hex_value(c: char) -> Option<u8> {
    if '0' <= c && c <= '9' {
        Some(((c as int) - ('0' as int)) as u8)
    } else if 'a' <= c && c <= 'f' {
        Some(((c as int) - ('a' as int) + 10) as u8)
    } else if 'A' <= c && c <= 'F' {
        Some(((c as int) - ('A' as int) + 10) as u8)
    } else {
        None
    }
}

/// The lowercase digit for a value below sixteen.
pub open spec fn hex_digit(d: int) -> char {
    if d < 10 {
        (('0' as int) + d) as char
    } else {
        (('a' as int) + d - 10) as char
    }
}

/// What `hex::decode` gives for a string: every character a hex digit and an
/// even count, each pair read as high then low nibble.
pub open spec fn hex_decode_spec(s: Seq<char>) -> Option<Seq<u8>> {
    if s.len() % 2 != 0 || !(forall|i: int| 0 <= i < s.len() ==> (#[trigger] hex_value(s[i])) is Some) {
        None
    } else {
        Some(
            Seq::new(
                (s.len() / 2) as nat,
                |i: int| (hex_value(s[2 * i])->0 * 16 + hex_value(s[2 * i + 1])->0) as u8,
            ),
        )
    }
}

/// What `hex::encode` gives: two lowercase digits per byte, high nibble first.
pub open spec fn hex_encode_spec(b: Seq<u8>) -> Seq<char> {
    Seq::new(
        2 * b.len(),
        |i: int|
            if i % 2 == 0 {
                hex_digit((b[i / 2] / 16) as int)
            } else {
                hex_digit((b[i / 2] % 16) as int)
            },
    )
}

/// `hex::decode`: reads a hexadecimal string into bytes. The contract claims
/// the crate's documented and coded behaviour: both cases accepted, an odd
/// length or any other character refused (the error's kind is dropped).
#[verifier::external_body]
pub(crate) fn hex_decode(s: &str) -> (r: Option<Vec<u8>>)
    ensures
        r is Some <==> hex_decode_spec(s@) is Some,
        r matches Some(v) ==> hex_decode_spec(s@) == Some(v@),
{
    hex::decode(s).ok()
}

/// `hex::encode`: writes bytes as lowercase hexadecimal, two digits per byte.
#[verifier::external_body]
pub(crate) fn hex_encode(b: &[u8]) -> (r: String)
    ensures
        r@ == hex_encode_spec(b@),
{
    hex::encode(b)
}

proof fn lemma_hex_digit_value(d: int)
    requires
        0 <= d < 16,
    ensures
        hex_value(hex_digit(d)) == Some(d as u8),
{
}

/// Decoding what was encoded gives back the same bytes.
pub proof fn lemma_hex_roundtrip(b: Seq<u8>)
    ensures
        hex_decode_spec(hex_encode_spec(b)) == Some(b),
{
    let s = hex_encode_spec(b);
    assert forall|i: int| 0 <= i < s.len() implies (#[trigger] hex_value(s[i])) is Some by {
        if i % 2 == 0 {
            lemma_hex_digit_value((b[i / 2] / 16) as int);
        } else {
            lemma_hex_digit_value((b[i / 2] % 16) as int);
        }
    }
    let d = hex_decode_spec(s)->0;
    assert forall|k: int| 0 <= k < b.len() implies d[k] == b[k] by {
        lemma_hex_digit_value((b[k] / 16) as int);
        lemma_hex_digit_value((b[k] % 16) as int);
        assert(s[2 * k] == hex_digit((b[k] / 16) as int));
        assert(s[2 * k + 1] == hex_digit((b[k] % 16) as int));
    }
    assert(d =~= b);
}

} // verus!
