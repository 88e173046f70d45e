//! `/recordings`: recordings shared for comments, their uploads and removal.

use vstd::prelude::*;
use crate::config::Config;
use crate::storage::{
    PutObjectParams, eu_west_2_object_url_prefix, has_prefix, has_suffix, metadata_name, public_upload_request,
    signable_metadata, signed_headers_suffix, upload_url,
};
use crate::data_types::MediaState;
use crate::text::{pair, pair_views};
use crate::uuids::{is_v4, new_object_key, uuid_text};
use crate::validation::{FieldError, check_length, error_views, length_check};

verus! {

/// A new recording.
pub struct CreateRecordingRequest {
    pub title: String,
    pub skill_level: i16,
    pub game_id: String,
    /// Whether the metadata names an Overwatch replay to fetch.
    pub is_overwatch: bool,
    pub notes: String,
}

/// The failures of checking a new recording: the title must not be empty,
/// and the skill level must be one of the game's (`levels`), else the whole
/// request fails with `invalid`.
pub open spec fn create_recording_errors(req: CreateRecordingRequest, levels: Seq<u8>) -> Seq<(Seq<char>, Seq<char>)> {
    length_check("title"@, req.title@, 1) + if exists|i: int| 0 <= i < levels.len() && levels[i] == (req.skill_level as u8) {
        seq![]
    } else {
        seq![("__all__"@, "invalid"@)]
    }
}

impl CreateRecordingRequest {
    /// Checks the request against the skill levels of its game.
    pub fn validate(&self, levels: &[u8]) -> (r: Vec<FieldError>)
        ensures
            error_views(r@) == create_recording_errors(*self, levels@),
            self.title@.len() < 1 ==> error_views(r@).contains(("title"@, "length"@)),
            !(exists|i: int| 0 <= i < levels@.len() && levels@[i] == (self.skill_level as u8)) ==> error_views(
                r@,
            ).contains(("__all__"@, "invalid"@)),
            r@.len() == 0 <==> (self.title@.len() >= 1 && exists|i: int|
                0 <= i < levels@.len() && levels@[i] == (self.skill_level as u8)),
    {
        let mut errors: Vec<FieldError> = Vec::new();
        check_length(&mut errors, "title", self.title.as_str(), 1);
        if !crate::validation::skill_level_allowed(levels, self.skill_level) {
            let ghost before = errors@;
            errors.push(FieldError { field: "__all__", code: "invalid" });
            assert(error_views(errors@) =~= error_views(before) + seq![("__all__"@, "invalid"@)]);
            proof {
                crate::validation::lemma_appended(error_views(before), seq![("__all__"@, "invalid"@)]);
            }
        }
        assert(error_views(errors@) =~= create_recording_errors(*self, levels@));
        errors
    }

    /// The notes stored with the recording: cleaned as HTML.
    pub fn stored_notes(&self) -> (r: String)
        ensures
            r@ == crate::html::html_clean_spec(self.notes@),
    {
        crate::routes::comments::clean_comment_body(self.notes.as_str())
    }

    /// The state of the new recording: an Overwatch replay is fetched by the
    /// service, so it counts as uploaded; anything else awaits its upload.
    pub fn initial_state(&self) -> (r: MediaState)
        ensures
            r == (if self.is_overwatch {
                MediaState::Uploaded
            } else {
                MediaState::Created
            }),
    {
        if self.is_overwatch {
            MediaState::Uploaded
        } else {
            MediaState::Created
        }
    }
}

/// Query of the recording list.
pub struct ListParams {
    pub page: Option<i64>,
    pub only_own: Option<bool>,
}

impl ListParams {
    /// The page asked for; the first when none is given.
    pub fn page(&self) -> (r: i64)
        ensures
            r == match self.page {
                Some(p) => p,
                None => 1,
            },
    {
        match self.page {
            Some(p) => p,
            None => 1,
        }
    }

    /// Whether only the user's own recordings are asked for; not unless given.
    pub fn only_own(&self) -> (r: bool)
        ensures
            r == match self.only_own {
                Some(a) => a,
                None => false,
            },
    {
        match self.only_own {
            Some(a) => a,
            None => false,
        }
    }
}

/// The prefix of the storage keys of uploaded recordings.
pub open spec fn recording_key_prefix() -> Seq<char> {
    "recordings/originals/"@
}

/// A fresh storage key for an uploaded recording.
pub fn new_recording_key() -> (r: String)
    ensures
        exists|u: u128| is_v4(u) && r@ == recording_key_prefix() + uuid_text(u),
{
    new_object_key("recordings/originals/")
}

/// The metadata attached to an upload: the deployment's id, if configured.
pub fn upload_metadata(config: &Config) -> (r: Vec<(String, String)>)
    ensures
        pair_views(r@) == match config.instance_id {
            Some(id) => seq![("instance-id"@, id@)],
            None => Seq::<(Seq<char>, Seq<char>)>::empty(),
        },
{
    let mut r: Vec<(String, String)> = Vec::new();
    if let Some(instance_id) = &config.instance_id {
        r.push(pair("instance-id", instance_id.as_str()));
    }
    assert(pair_views(r@) =~= match config.instance_id {
        Some(id) => seq![("instance-id"@, id@)],
        None => Seq::<(Seq<char>, Seq<char>)>::empty(),
    });
    r
}

/// Whether a new recording is sent to the recorder queue: when a queue is
/// configured and the recording is an Overwatch replay.
pub fn enqueue_for_recorder(config: &Config, is_overwatch: bool) -> (r: bool)
    ensures
        r == (config.recorder_queue is Some && is_overwatch),
{
    config.recorder_queue.is_some() && is_overwatch
}

/// The message that sends a new recording to the recorder queue.
pub struct RecorderMessage {
    /// The queue's URL.
    pub queue_url: String,
    /// The fields added to the recording's JSON: the deployment's id, under
    /// `instance_id`, if configured.
    pub extra_fields: Vec<(String, String)>,
}

/// The message for a new recording: sent only for an Overwatch replay when a
/// queue is configured, to that queue, with the deployment's id added.
pub fn recorder_message(config: &Config, is_overwatch: bool) -> (r: Option<RecorderMessage>)
    ensures
        r is Some <==> (config.recorder_queue is Some && is_overwatch),
        r matches Some(m) ==> {
            &&& config.recorder_queue matches Some(q) && m.queue_url@ == q@
            &&& pair_views(m.extra_fields@) == match config.instance_id {
                Some(id) => seq![("instance_id"@, id@)],
                None => Seq::<(Seq<char>, Seq<char>)>::empty(),
            }
        },
{
    if !enqueue_for_recorder(config, is_overwatch) {
        return None;
    }
    match &config.recorder_queue {
        Some(q) => Some(
            RecorderMessage {
                queue_url: q.clone(),
                extra_fields: crate::routes::coach::account::instance_metadata(config),
            },
        ),
        None => None,
    }
}

/// The stored objects of a recording, to delete with it: the video, its
/// thumbnail and its processed video, those that exist, in that order.
pub open spec fn recording_objects(
    video_key: Option<Seq<char>>,
    thumbnail_key: Option<Seq<char>>,
    processed_video_key: Option<Seq<char>>,
) -> Seq<Seq<char>> {
    (match video_key {
        Some(k) => seq![k],
        None => seq![],
    }) + (match thumbnail_key {
        Some(k) => seq![k],
        None => seq![],
    }) + (match processed_video_key {
        Some(k) => seq![k],
        None => seq![],
    })
}

pub open spec fn opt_view(o: Option<String>) -> Option<Seq<char>> {
    match o {
        Some(s) => Some(s@),
        None => None,
    }
}

/// The number of stored objects a recording has.
pub open spec fn present_count(a: Option<Seq<char>>, b: Option<Seq<char>>, c: Option<Seq<char>>) -> int {
    (if a is Some {
        1int
    } else {
        0int
    }) + (if b is Some {
        1int
    } else {
        0int
    }) + (if c is Some {
        1int
    } else {
        0int
    })
}

/// Deleting a recording removes every object it has: each present key (the
/// video, the thumbnail, the processed video) is among the keys to delete,
/// there is one key per present key, and every key to delete is one of them.
pub proof fn lemma_recording_objects_complete(v: Option<Seq<char>>, t: Option<Seq<char>>, p: Option<Seq<char>>)
    ensures
        recording_objects(v, t, p).len() == present_count(v, t, p),
        v matches Some(k) ==> recording_objects(v, t, p).contains(k),
        t matches Some(k) ==> recording_objects(v, t, p).contains(k),
        p matches Some(k) ==> recording_objects(v, t, p).contains(k),
        forall|i: int|
            0 <= i < recording_objects(v, t, p).len() ==> (v == Some(#[trigger] recording_objects(v, t, p)[i]) || t
                == Some(recording_objects(v, t, p)[i]) || p == Some(recording_objects(v, t, p)[i])),
{
    let a: Seq<Seq<char>> = match v {
        Some(k) => seq![k],
        None => seq![],
    };
    let b: Seq<Seq<char>> = match t {
        Some(k) => seq![k],
        None => seq![],
    };
    let c: Seq<Seq<char>> = match p {
        Some(k) => seq![k],
        None => seq![],
    };
    let all = recording_objects(v, t, p);
    assert(all == a + b + c);
    if let Some(k) = v {
        assert(all[0] == k);
    }
    if let Some(k) = t {
        assert(all[a.len() as int] == k);
    }
    if let Some(k) = p {
        assert(all[(a.len() + b.len()) as int] == k);
    }
    assert forall|i: int| 0 <= i < all.len() implies (v == Some(#[trigger] all[i]) || t == Some(all[i]) || p == Some(
        all[i],
    )) by {
        if i < a.len() {
            assert(all[i] == a[i]);
        } else if i < a.len() + b.len() {
            assert(all[i] == b[i - a.len()]);
        } else {
            assert(all[i] == c[i - a.len() - b.len()]);
        }
    }
}

/// The storage keys to delete with a recording: every present key of the
/// video, the thumbnail and the processed video, one each, and no other.
pub fn keys_to_delete(
    video_key: &Option<String>,
    thumbnail_key: &Option<String>,
    processed_video_key: &Option<String>,
) -> (r: Vec<String>)
    ensures
        crate::text::views(r@) == recording_objects(
            opt_view(*video_key),
            opt_view(*thumbnail_key),
            opt_view(*processed_video_key),
        ),
        r@.len() == present_count(opt_view(*video_key), opt_view(*thumbnail_key), opt_view(*processed_video_key)),
        video_key matches Some(k) ==> crate::text::views(r@).contains(k@),
        thumbnail_key matches Some(k) ==> crate::text::views(r@).contains(k@),
        processed_video_key matches Some(k) ==> crate::text::views(r@).contains(k@),
        forall|i: int|
            0 <= i < r@.len() ==> (opt_view(*video_key) == Some(#[trigger] r@[i]@) || opt_view(*thumbnail_key) == Some(
                r@[i]@,
            ) || opt_view(*processed_video_key) == Some(r@[i]@)),
{
    let mut r: Vec<String> = Vec::new();
    if let Some(k) = video_key {
        r.push(k.clone());
    }
    if let Some(k) = thumbnail_key {
        r.push(k.clone());
    }
    if let Some(k) = processed_video_key {
        r.push(k.clone());
    }
    assert(crate::text::views(r@) =~= recording_objects(
        opt_view(*video_key),
        opt_view(*thumbnail_key),
        opt_view(*processed_video_key),
    ));
    proof {
        lemma_recording_objects_complete(opt_view(*video_key), opt_view(*thumbnail_key), opt_view(*processed_video_key));
        assert forall|i: int| 0 <= i < r@.len() implies (opt_view(*video_key) == Some(#[trigger] r@[i]@) || opt_view(
            *thumbnail_key,
        ) == Some(r@[i]@) || opt_view(*processed_video_key) == Some(r@[i]@)) by {
            assert(crate::text::views(r@)[i] == r@[i]@);
        }
    }
    r
}

/// The metadata name of uploads when the deployment's id is configured.
pub open spec fn instance_metadata_name(config: Config) -> Option<Seq<char>> {
    match config.instance_id {
        Some(_) => Some("instance-id"@),
        None => None,
    }
}

/// The deployment's upload metadata can be signed, and names `instance-id`.
pub proof fn lemma_upload_metadata_signable(m: Seq<(String, String)>, config: Config)
    requires
        pair_views(m) == match config.instance_id {
            Some(id) => seq![("instance-id"@, id@)],
            None => Seq::<(Seq<char>, Seq<char>)>::empty(),
        },
    ensures
        signable_metadata(m),
        metadata_name(m) == instance_metadata_name(config),
{
    reveal_strlit("instance-id");
    assert(m.len() == pair_views(m).len());
    if m.len() == 1 {
        assert(pair_views(m)[0].0 == m[0].0@);
        assert(m[0].0@ == "instance-id"@);
        assert forall|i: int, j: int| 0 <= i < m.len() && 0 <= j < m[i].0@.len() implies crate::storage::header_name_char(
            #[trigger] m[i].0@[j],
        ) by {
            assert(i == 0);
        }
    }
}

/// The PUT request of an upload to a bucket: readable by anyone once
/// uploaded, carrying the deployment's id under `instance-id` if configured.
pub fn instance_upload_request(config: &Config, bucket: &str, key: &str) -> (r: PutObjectParams)
    ensures
        r.bucket@ == bucket@,
        r.key@ == key@,
        r.acl@ == "public-read"@,
        pair_views(r.metadata@) == match config.instance_id {
            Some(id) => seq![("instance-id"@, id@)],
            None => Seq::<(Seq<char>, Seq<char>)>::empty(),
        },
        signable_metadata(r.metadata@),
        metadata_name(r.metadata@) == instance_metadata_name(*config),
{
    let metadata = upload_metadata(config);
    proof {
        lemma_upload_metadata_signable(metadata@, *config);
    }
    public_upload_request(bucket, key, metadata)
}

/// The URL through which a recording's video is uploaded to the `s3_bucket`
/// bucket, readable by anyone, with the deployment's metadata.
pub fn create_upload_url(config: &Config, recording_video_key: &String) -> (r: String)
    ensures
        has_prefix(r@, eu_west_2_object_url_prefix(config.s3_bucket@, recording_video_key@)),
        has_suffix(r@, signed_headers_suffix(instance_metadata_name(*config))),
{
    let request = instance_upload_request(config, config.s3_bucket.as_str(), recording_video_key.as_str());
    upload_url(config, &request)
}

} // verus!
