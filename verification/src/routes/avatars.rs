//! `/avatars`: a user's profile picture, uploaded to storage.

use vstd::prelude::*;
use crate::config::Config;
use crate::routes::recordings::{instance_metadata_name, instance_upload_request};
use crate::storage::{eu_west_2_object_url_prefix, has_prefix, has_suffix, signed_headers_suffix, upload_url};
use crate::uuids::{is_v4, new_object_key, uuid_text};

verus! {

/// A fresh storage key for an uploaded avatar.
pub fn new_avatar_key() -> (r: String)
    ensures
        exists|u: u128| is_v4(u) && r@ == "avatars/originals/"@ + uuid_text(u),
{
    new_object_key("avatars/originals/")
}

/// The storage keys to delete with an avatar: the original image and the
/// processed one, which must exist.
pub fn keys_to_delete(image_key: &String, processed_image_key: &Option<String>) -> (r: Vec<String>)
    requires
        processed_image_key is Some,
    ensures
        crate::text::views(r@) == seq![image_key@, processed_image_key->0@],
{
    let mut r: Vec<String> = Vec::new();
    r.push(image_key.clone());
    match processed_image_key {
        Some(k) => r.push(k.clone()),
        None => {},
    }
    assert(crate::text::views(r@) =~= seq![image_key@, processed_image_key->0@]);
    r
}

/// The URL through which an avatar is uploaded to the `uploads_bucket` bucket,
/// readable by anyone, with the deployment's metadata.
pub fn create_upload_url(config: &Config, key: &String) -> (r: String)
    ensures
        has_prefix(r@, eu_west_2_object_url_prefix(config.uploads_bucket@, key@)),
        has_suffix(r@, signed_headers_suffix(instance_metadata_name(*config))),
{
    let request = instance_upload_request(config, config.uploads_bucket.as_str(), key.as_str());
    upload_url(config, &request)
}

} // verus!
