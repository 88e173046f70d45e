//! `/audios`: voice notes recorded for reviews, uploaded to storage.

use vstd::prelude::*;
use crate::config::Config;
use crate::routes::recordings::{instance_metadata_name, instance_upload_request};
use crate::storage::{eu_west_2_object_url_prefix, has_prefix, has_suffix, signed_headers_suffix, upload_url};
use crate::uuids::{is_v4, new_object_key, uuid_text};

verus! {

/// A fresh storage key for an uploaded audio.
pub fn new_audio_key() -> (r: String)
    ensures
        exists|u: u128| is_v4(u) && r@ == "audios/originals/"@ + uuid_text(u),
{
    new_object_key("audios/originals/")
}

/// The storage keys to delete with an audio: the original, then the
/// processed one if it exists.
pub fn keys_to_delete(audio_key: &String, processed_audio_key: &Option<String>) -> (r: Vec<String>)
    ensures
        crate::text::views(r@) == seq![audio_key@] + match *processed_audio_key {
            Some(k) => seq![k@],
            None => Seq::<Seq<char>>::empty(),
        },
{
    let mut r: Vec<String> = Vec::new();
    r.push(audio_key.clone());
    if let Some(k) = processed_audio_key {
        r.push(k.clone());
    }
    assert(crate::text::views(r@) =~= seq![audio_key@] + match *processed_audio_key {
        Some(k) => seq![k@],
        None => Seq::<Seq<char>>::empty(),
    });
    r
}

/// The URL through which an audio is uploaded to the `s3_bucket` bucket,
/// readable by anyone, with the deployment's metadata.
pub fn create_upload_url(config: &Config, key: &String) -> (r: String)
    ensures
        has_prefix(r@, eu_west_2_object_url_prefix(config.s3_bucket@, key@)),
        has_suffix(r@, signed_headers_suffix(instance_metadata_name(*config))),
{
    let request = instance_upload_request(config, config.s3_bucket.as_str(), key.as_str());
    upload_url(config, &request)
}

} // verus!
