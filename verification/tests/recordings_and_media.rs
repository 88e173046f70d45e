use ranklab::config::Config;
use ranklab::data_types::MediaState;
use ranklab::routes::player::recordings::CreateRecordingRequest as PlayerRecording;
use ranklab::routes::recordings::{
    enqueue_for_recorder, keys_to_delete, new_recording_key, upload_metadata, CreateRecordingRequest, ListParams,
};
use ranklab::uuids::{new_object_key, object_key};

fn config(instance_id: Option<&str>, queue: Option<&str>) -> Config {
    Config {
        stripe_secret: "sk".to_string(),
        web_host: "https://ranklab.gg".to_string(),
        instance_id: instance_id.map(|s| s.to_string()),
        s3_bucket: "b".to_string(),
        uploads_bucket: "u".to_string(),
        aws_access_key_id: "k".to_string(),
        aws_secret_key: "s".to_string(),
        recorder_queue: queue.map(|s| s.to_string()),
    }
}

#[test]
fn uuid_text_is_hyphenated_lowercase() {
    assert_eq!(object_key("", 0x936DA01F9ABD4D9D80C702AF85C822A8), "936da01f-9abd-4d9d-80c7-02af85c822a8");
    assert_eq!(object_key("", 0), "00000000-0000-0000-0000-000000000000");
    assert_eq!(object_key("audios/originals/", 1), "audios/originals/00000000-0000-0000-0000-000000000001");
}

#[test]
fn random_uuids_are_version_four() {
    let text = new_object_key("");
    let u = u128::from_str_radix(&text.replace('-', ""), 16).unwrap();
    assert_eq!((u >> 76) & 0xf, 4);
    assert_eq!((u >> 62) & 0x3, 2);
    let key = new_recording_key();
    assert!(key.starts_with("recordings/originals/"));
    assert_eq!(key.len(), "recordings/originals/".len() + 36);
    assert_eq!(&key[21 + 14..21 + 15], "4");
}

#[test]
fn recording_checks_and_state() {
    let req = CreateRecordingRequest {
        title: "".to_string(),
        skill_level: 5,
        game_id: "overwatch".to_string(),
        is_overwatch: true,
        notes: "".to_string(),
    };
    let errors: Vec<_> = req.validate(&[1, 2, 3]).iter().map(|e| (e.field, e.code)).collect();
    assert_eq!(errors, vec![("title", "length"), ("__all__", "invalid")]);
    assert_eq!(req.initial_state(), MediaState::Uploaded);
    let plain = CreateRecordingRequest { is_overwatch: false, title: "t".to_string(), ..req };
    assert_eq!(plain.initial_state(), MediaState::Created);
    assert!(plain.validate(&[5]).is_empty());
}

#[test]
fn recording_list_and_queue() {
    let p = ListParams { page: None, only_own: None };
    assert_eq!(p.page(), 1);
    assert!(!p.only_own());
    assert!(enqueue_for_recorder(&config(None, Some("q")), true));
    assert!(!enqueue_for_recorder(&config(None, Some("q")), false));
    assert!(!enqueue_for_recorder(&config(None, None), true));
    assert_eq!(upload_metadata(&config(Some("i-3"), None)), vec![("instance-id".to_string(), "i-3".to_string())]);
    assert!(upload_metadata(&config(None, None)).is_empty());
}

#[test]
fn stored_objects_to_delete() {
    assert_eq!(
        keys_to_delete(&Some("v".to_string()), &None, &Some("p".to_string())),
        vec!["v".to_string(), "p".to_string()]
    );
    assert!(keys_to_delete(&None, &None, &None).is_empty());
    assert_eq!(
        ranklab::routes::audios::keys_to_delete(&"a".to_string(), &Some("b".to_string())),
        vec!["a".to_string(), "b".to_string()]
    );
}

#[test]
fn player_recording_plans() {
    let chess = PlayerRecording {
        title: "Game".to_string(),
        skill_level: 1,
        game_id: "chess".to_string(),
        has_chess_pgn: true,
        has_overwatch_replay_code: false,
    };
    let plan = chess.plan();
    assert_eq!(plan.state, MediaState::Processed);
    assert!(plan.video_key.is_none());
    let replay = PlayerRecording { has_chess_pgn: false, has_overwatch_replay_code: true, ..chess };
    let plan = replay.plan();
    assert_eq!(plan.state, MediaState::Uploaded);
    assert!(plan.video_key.unwrap().starts_with("recordings/originals/"));
    let errors: Vec<_> = replay.validate(&["overwatch"]).iter().map(|e| (e.field, e.code)).collect();
    assert_eq!(errors, vec![("game_id", "Game ID is not valid")]);
}

#[test]
fn upload_urls_are_presigned_for_the_bucket() {
    let c = config(Some("i-9"), None);
    let url = ranklab::routes::recordings::create_upload_url(&c, &"recordings/originals/abc".to_string());
    assert!(url.starts_with("https://s3.eu-west-2.amazonaws.com/b/recordings/originals/abc?"));
    assert!(url.contains("X-Amz-Signature="));
    assert!(url.contains("x-amz-acl"));
    assert!(url.contains("x-amz-meta-instance-id"));
    let avatar = ranklab::routes::avatars::create_upload_url(&c, &"avatars/originals/a b".to_string());
    assert!(avatar.starts_with("https://s3.eu-west-2.amazonaws.com/u/avatars/originals/a%20b?"));
    let coach = ranklab::routes::coach::avatars::create_upload_url(&c, &"k".to_string());
    assert!(coach.starts_with("https://s3.eu-west-2.amazonaws.com/b/k?"));
    assert!(!coach.contains("x-amz-meta-instance-id"));
    assert!(url.ends_with("&X-Amz-SignedHeaders=host%3Bx-amz-acl%3Bx-amz-meta-instance-id"));
    assert!(coach.ends_with("&X-Amz-SignedHeaders=host%3Bx-amz-acl"));
    let bare = ranklab::routes::audios::create_upload_url(&config(None, None), &"a".to_string());
    assert!(bare.ends_with("&X-Amz-SignedHeaders=host%3Bx-amz-acl"));
}

#[test]
fn upload_requests_are_public_and_carry_the_instance() {
    let r = ranklab::routes::recordings::instance_upload_request(&config(Some("i-4"), None), "bkt", "k1");
    assert_eq!((r.bucket.as_str(), r.key.as_str(), r.acl.as_str()), ("bkt", "k1", "public-read"));
    assert_eq!(r.metadata, vec![("instance-id".to_string(), "i-4".to_string())]);
    let r = ranklab::routes::recordings::instance_upload_request(&config(None, None), "bkt", "k1");
    assert!(r.metadata.is_empty());
}

#[test]
fn recording_notes_are_cleaned() {
    let req = CreateRecordingRequest {
        title: "t".to_string(),
        skill_level: 1,
        game_id: "chess".to_string(),
        is_overwatch: false,
        notes: "<p>ok</p><script>bad()</script>".to_string(),
    };
    assert_eq!(req.stored_notes(), "<p>ok</p>");
}

#[test]
fn recorder_queue_messages() {
    let m = ranklab::routes::recordings::recorder_message(&config(Some("i-5"), Some("https://sqs/q")), true).unwrap();
    assert_eq!(m.queue_url, "https://sqs/q");
    assert_eq!(m.extra_fields, vec![("instance_id".to_string(), "i-5".to_string())]);
    assert!(ranklab::routes::recordings::recorder_message(&config(None, Some("q")), false).is_none());
    assert!(ranklab::routes::recordings::recorder_message(&config(None, None), true).is_none());
    let bare = ranklab::routes::recordings::recorder_message(&config(None, Some("q")), true).unwrap();
    assert!(bare.extra_fields.is_empty());
}
