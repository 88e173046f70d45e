//! `/player/recordings`: a player's recordings and their uploads.

use vstd::prelude::*;
use crate::data_types::MediaState;
use crate::uuids::{is_v4, uuid_text};
use crate::validation::{FieldError, check_game, check_length, error_views, game_check, length_check};

verus! {

/// A new recording.
pub struct CreateRecordingRequest {
    pub title: String,
    pub skill_level: i16,
    pub game_id: String,
    /// Whether the metadata holds a chess game (`chess.pgn`).
    pub has_chess_pgn: bool,
    /// Whether the metadata names an Overwatch replay (`overwatch.replay_code`).
    pub has_overwatch_replay_code: bool,
}

/// The failures of checking a new recording: a title, and a game id that is
/// given and known.
pub open spec fn create_recording_errors(req: CreateRecordingRequest, games: Seq<&str>) -> Seq<(Seq<char>, Seq<char>)> {
    length_check("title"@, req.title@, 1) + length_check("game_id"@, req.game_id@, 1) + game_check(
        "game_id"@,
        req.game_id@,
        games,
    )
}

/// How a new recording is stored.
pub struct RecordingPlan {
    pub state: MediaState,
    /// Where its upload goes, if one is expected.
    pub video_key: Option<String>,
}

impl CreateRecordingRequest {
    /// Checks the request against the known games.
    pub fn validate(&self, games: &[&str]) -> (r: Vec<FieldError>)
        ensures
            error_views(r@) == create_recording_errors(*self, games@),
            self.title@.len() < 1 ==> error_views(r@).contains(("title"@, "length"@)),
            self.game_id@.len() < 1 ==> error_views(r@).contains(("game_id"@, "length"@)),
            !crate::validation::known_game(self.game_id@, games@) ==> error_views(r@).contains(("game_id"@, "Game ID is not valid"@)),
            r@.len() == 0 <==> (self.title@.len() >= 1 && self.game_id@.len() >= 1 && crate::validation::known_game(self.game_id@, games@)),
    {
        let mut errors: Vec<FieldError> = Vec::new();
        check_length(&mut errors, "title", self.title.as_str(), 1);
        check_length(&mut errors, "game_id", self.game_id.as_str(), 1);
        check_game(&mut errors, "game_id", self.game_id.as_str(), games);
        errors
    }

    /// How the recording is stored: a chess game needs no upload and is
    /// processed at once; an Overwatch replay is fetched by the service and so
    /// counts as uploaded; anything else awaits its upload.
    pub fn plan(&self) -> (r: RecordingPlan)
        ensures
            r.state == (if self.has_chess_pgn {
                MediaState::Processed
            } else if self.has_overwatch_replay_code {
                MediaState::Uploaded
            } else {
                MediaState::Created
            }),
            self.has_chess_pgn <==> r.video_key is None,
            r.video_key matches Some(k) ==> exists|u: u128| is_v4(u) && k@ == "recordings/originals/"@ + uuid_text(u),
    {
        let video_key = if self.has_chess_pgn {
            None
        } else {
            Some(crate::routes::recordings::new_recording_key())
        };
        let state = if self.has_chess_pgn {
            MediaState::Processed
        } else if self.has_overwatch_replay_code {
            MediaState::Uploaded
        } else {
            MediaState::Created
        };
        RecordingPlan { state, video_key }
    }
}

} // verus!
