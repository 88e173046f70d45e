//! SHA-256 digests and HMAC-SHA256 tags, computed by the `sha2` and `hmac`
//! crates.

use vstd::prelude::*;
use hmac::Mac;
use sha2::Digest;

verus! {

/// The SHA-256 digest of a byte string (`sha2::Sha256::digest`).
pub uninterp spec fn sha256_spec(data: Seq<u8>) -> Seq<u8>;

/// The HMAC-SHA256 tag of a message under a key (`hmac::Hmac<Sha256>`).
pub uninterp spec fn hmac_sha256_spec(key: Seq<u8>, msg: Seq<u8>) -> Seq<u8>;

/// `sha2::Sha256::digest`: the digest named by `sha256_spec`, 32 bytes long
/// (the output size of SHA-256).
#[verifier::external_body]
pub(crate) fn sha256(data: &[u8]) -> (r: Vec<u8>)
    ensures
        r@ == sha256_spec(data@),
        r@.len() == 32,
{
    sha2::Sha256::digest(data).to_vec()
}

/// `Hmac::<Sha256>::new_from_slice`, `update` and `verify_slice`: whether `tag`
/// is the tag of `msg` under `key`. `new_from_slice` accepts keys of every
/// length for HMAC (the `hmac` source returns `Ok` unconditionally), so the
/// result is always `Some`; `verify_slice` succeeds exactly when the tag has
/// the output length and equals the computed tag.
#[verifier::external_body]
pub(crate) fn hmac_sha256_verify(key: &[u8], msg: &[u8], tag: &[u8]) -> (r: Option<bool>)
    ensures
        r == Some(tag@ == hmac_sha256_spec(key@, msg@)),
{
    match hmac::Hmac::<sha2::Sha256>::new_from_slice(key) {
        Ok(mut mac) => {
            mac.update(msg);
            Some(mac.verify_slice(tag).is_ok())
        },
        Err(_) => None,
    }
}

} // verus!
