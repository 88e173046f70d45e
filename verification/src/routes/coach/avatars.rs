//! `/coach/avatars`: a coach's picture.

use vstd::prelude::*;
use crate::config::Config;
use crate::storage::{
    eu_west_2_object_url_prefix, has_prefix, has_suffix, public_upload_request, signed_headers_suffix, upload_url,
};

verus! {

/// A new picture; the request carries nothing.
pub struct CreateAvatarRequest {}

/// The URL through which a coach's picture is uploaded to the `s3_bucket`
/// bucket, readable by anyone, with no metadata.
pub fn create_upload_url(config: &Config, key: &String) -> (r: String)
    ensures
        has_prefix(r@, eu_west_2_object_url_prefix(config.s3_bucket@, key@)),
        has_suffix(r@, signed_headers_suffix(None)),
{
    let request = public_upload_request(config.s3_bucket.as_str(), key.as_str(), Vec::new());
    upload_url(config, &request)
}

} // verus!
