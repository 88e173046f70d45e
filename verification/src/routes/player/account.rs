//! `/player/account`: a player's signup, with the Stripe customer made for
//! their payments, and changes to their profile.

use vstd::prelude::*;
use crate::config::Config;
use crate::notifications::{Notification, email_body, signed_up_title, signup_notice};
use crate::routes::coach::account::instance_metadata;
use crate::routes::sessions::{Credentials, signup_identity, signup_identity_spec};
use crate::stripe::{idempotency_key, idempotency_key_spec};
use crate::text::pair_views;
use crate::validation::{
    FieldError, Refusal, check_game, check_length, error_views, game_check, length_check, skill_level_allowed,
    uniqueness_error, uniqueness_field,
};

verus! {

/// A change to a player's profile.
pub struct UpdatePlayerRequest {
    pub name: String,
    pub game_id: String,
    pub skill_level: i16,
    pub emails_enabled: bool,
}

/// A player's signup.
pub struct CreatePlayerRequest {
    pub name: String,
    pub credentials: Credentials,
    pub game_id: String,
    pub skill_level: i16,
}

/// The failures of a name and game id: a name of two characters or more and
/// a game id that is given and known (`games`).
pub open spec fn player_errors(name: Seq<char>, game_id: Seq<char>, games: Seq<&str>) -> Seq<(Seq<char>, Seq<char>)> {
    length_check("name"@, name, 2) + length_check("game_id"@, game_id, 1) + game_check("game_id"@, game_id, games)
}

/// Checks a name and a game id.
fn check_player_fields(name: &str, game_id: &str, games: &[&str]) -> (r: Vec<FieldError>)
    ensures
        error_views(r@) == player_errors(name@, game_id@, games@),
        name@.len() < 2 ==> error_views(r@).contains(("name"@, "length"@)),
        game_id@.len() < 1 ==> error_views(r@).contains(("game_id"@, "length"@)),
        !crate::validation::known_game(game_id@, games@) ==> error_views(r@).contains(("game_id"@, "Game ID is not valid"@)),
        r@.len() == 0 <==> (name@.len() >= 2 && game_id@.len() >= 1 && crate::validation::known_game(game_id@, games@)),
{
    let mut errors: Vec<FieldError> = Vec::new();
    check_length(&mut errors, "name", name, 2);
    check_length(&mut errors, "game_id", game_id, 1);
    check_game(&mut errors, "game_id", game_id, games);
    assert(error_views(errors@) =~= player_errors(name@, game_id@, games@));
    errors
}

impl UpdatePlayerRequest {
    /// Checks the profile change against the known games.
    pub fn validate(&self, games: &[&str]) -> (r: Vec<FieldError>)
        ensures
            error_views(r@) == player_errors(self.name@, self.game_id@, games@),
            self.name@.len() < 2 ==> error_views(r@).contains(("name"@, "length"@)),
            self.game_id@.len() < 1 ==> error_views(r@).contains(("game_id"@, "length"@)),
            !crate::validation::known_game(self.game_id@, games@) ==> error_views(r@).contains(
                ("game_id"@, "Game ID is not valid"@),
            ),
            r@.len() == 0 <==> (self.name@.len() >= 2 && self.game_id@.len() >= 1 && crate::validation::known_game(
                self.game_id@,
                games@,
            )),
    {
        check_player_fields(self.name.as_str(), self.game_id.as_str(), games)
    }
}

impl CreatePlayerRequest {
    /// Checks the signup against the known games.
    pub fn validate(&self, games: &[&str]) -> (r: Vec<FieldError>)
        ensures
            error_views(r@) == player_errors(self.name@, self.game_id@, games@),
            self.name@.len() < 2 ==> error_views(r@).contains(("name"@, "length"@)),
            self.game_id@.len() < 1 ==> error_views(r@).contains(("game_id"@, "length"@)),
            !crate::validation::known_game(self.game_id@, games@) ==> error_views(r@).contains(
                ("game_id"@, "Game ID is not valid"@),
            ),
            r@.len() == 0 <==> (self.name@.len() >= 2 && self.game_id@.len() >= 1 && crate::validation::known_game(
                self.game_id@,
                games@,
            )),
    {
        check_player_fields(self.name.as_str(), self.game_id.as_str(), games)
    }

    /// Whether the signup's skill level is one of its game's (`levels`);
    /// a signup with another level is refused (422).
    pub fn skill_level_allowed(&self, levels: &[u8]) -> (r: bool)
        ensures
            r == exists|i: int| 0 <= i < levels@.len() && levels@[i] == (self.skill_level as u8),
    {
        skill_level_allowed(levels, self.skill_level)
    }
}

/// The parameters of the Stripe customer made for a player.
pub struct CustomerParams {
    pub email: String,
    /// The address the signup came from, for tax purposes.
    pub ip_address: String,
    pub metadata: Vec<(String, String)>,
    /// The idempotency key of the request that makes the customer.
    pub idempotency_key: String,
}

/// The parameters of a player's Stripe customer: the e-mail, the signup's
/// address, the deployment's metadata and the e-mail's idempotency key.
pub fn stripe_customer_params(email: &str, ip_address: &str, config: &Config) -> (r: CustomerParams)
    ensures
        r.email@ == email@,
        r.ip_address@ == ip_address@,
        pair_views(r.metadata@) == match config.instance_id {
            Some(id) => seq![("instance_id"@, id@)],
            None => Seq::<(Seq<char>, Seq<char>)>::empty(),
        },
        r.idempotency_key@ == idempotency_key_spec(email@),
{
    CustomerParams {
        email: String::from_str(email),
        ip_address: String::from_str(ip_address),
        metadata: instance_metadata(config),
        idempotency_key: idempotency_key(email),
    }
}

/// The failure reported when saving a player violates a unique constraint:
/// `email` (code `uniqueness`) for `players_email_key`, `None` (an internal
/// error) for any other.
pub fn player_uniqueness_error(constraint: Option<&str>) -> (r: Option<FieldError>)
    ensures
        match constraint {
            Some(c) => if c@ == "players_email_key"@ {
                r matches Some(e) && e.field@ == "email"@ && e.code@ == "uniqueness"@
            } else {
                r is None
            },
            None => r is None,
        },
{
    let rules: [(&str, &'static str); 1] = [("players_email_key", "email")];
    let sl = rules.as_slice();
    let r = uniqueness_error(constraint, sl);
    proof {
        let s = rules@;
        assert(sl@ == s);
        assert(s.drop_first().len() == 0);
        if let Some(c) = constraint {
            assert(uniqueness_field(Some(c@), s.drop_first()) is None);
        }
    }
    r
}

/// The notice sent to sales when a player signs up.
pub fn player_signup_notice(name: &str, email: &str) -> (r: Notification)
    ensures
        r.subject@ == "A player has signed up!"@,
        r.title@ == signed_up_title(name@),
        r.body@ == email_body(email@),
        r.cta is None,
        r.unsubscribe_url is None,
{
    signup_notice("A player has signed up!", name, email)
}

/// Whether a skill level is one of a game's levels, compared as a byte.
pub open spec fn level_allowed(levels: Seq<u8>, skill_level: i16) -> bool {
    exists|i: int| 0 <= i < levels.len() && levels[i] == (skill_level as u8)
}

/// The steps of a profile change before the database: a change that fails
/// its checks is answered with the failures; then the player's *current*
/// game and level (`current_levels`, `current_skill_level`, as stored) must
/// agree, else the change is refused with 422.
pub fn plan_player_update(
    req: &UpdatePlayerRequest,
    games: &[&str],
    current_levels: &[u8],
    current_skill_level: i16,
) -> (r: Result<(), Refusal>)
    ensures
        player_errors(req.name@, req.game_id@, games@).len() > 0 ==> (r matches Err(Refusal::Invalid(e))
            && error_views(e@) == player_errors(req.name@, req.game_id@, games@)),
        player_errors(req.name@, req.game_id@, games@).len() == 0 && !level_allowed(
            current_levels@,
            current_skill_level,
        ) ==> (r matches Err(Refusal::Status(s)) && s == 422),
        player_errors(req.name@, req.game_id@, games@).len() == 0 && level_allowed(
            current_levels@,
            current_skill_level,
        ) ==> r is Ok,
{
    let errors = req.validate(games);
    if errors.len() > 0 {
        return Err(Refusal::Invalid(errors));
    }
    if !skill_level_allowed(current_levels, current_skill_level) {
        return Err(Refusal::Status(422));
    }
    Ok(())
}

/// What a player's signup does once its checks pass.
pub struct PlayerSignupPlan {
    pub email: String,
    /// The password to hash and store, for a signup with one.
    pub password: Option<String>,
    pub customer: CustomerParams,
}

/// The steps of a player's signup before Stripe and the database: a signup
/// that fails its checks is answered with the failures; one whose skill level
/// is not one of its game's (`levels`) is refused with 422; so is one whose
/// token does not decode (`subject` is the decoded subject, if any). Then the
/// customer to make, for the signup's e-mail and address (`ip_address`).
pub fn plan_player_signup(
    req: &CreatePlayerRequest,
    games: &[&str],
    levels: &[u8],
    subject: Option<String>,
    ip_address: &str,
    config: &Config,
) -> (r: Result<PlayerSignupPlan, Refusal>)
    ensures
        player_errors(req.name@, req.game_id@, games@).len() > 0 ==> (r matches Err(Refusal::Invalid(e))
            && error_views(e@) == player_errors(req.name@, req.game_id@, games@)),
        player_errors(req.name@, req.game_id@, games@).len() == 0 && !level_allowed(levels@, req.skill_level)
            ==> (r matches Err(Refusal::Status(s)) && s == 422),
        player_errors(req.name@, req.game_id@, games@).len() == 0 && level_allowed(levels@, req.skill_level) ==> match signup_identity_spec(
            req.credentials,
            match subject {
                Some(x) => Some(x@),
                None => None,
            },
        ) {
            Err(_) => r matches Err(Refusal::Status(s)) && s == 422,
            Ok((email, password)) => r matches Ok(plan) && {
                &&& plan.email@ == email
                &&& match (plan.password, password) {
                    (Some(x), Some(y)) => x@ == y,
                    (None, None) => true,
                    _ => false,
                }
                &&& plan.customer.email@ == email
                &&& plan.customer.ip_address@ == ip_address@
                &&& pair_views(plan.customer.metadata@) == match config.instance_id {
                    Some(id) => seq![("instance_id"@, id@)],
                    None => Seq::<(Seq<char>, Seq<char>)>::empty(),
                }
                &&& plan.customer.idempotency_key@ == idempotency_key_spec(email)
            },
        },
{
    let errors = req.validate(games);
    if errors.len() > 0 {
        return Err(Refusal::Invalid(errors));
    }
    if !req.skill_level_allowed(levels) {
        return Err(Refusal::Status(422));
    }
    match signup_identity(&req.credentials, subject) {
        Err(_) => Err(Refusal::Status(422)),
        Ok((email, password)) => {
            let customer = stripe_customer_params(email.as_str(), ip_address, config);
            Ok(PlayerSignupPlan { email, password, customer })
        },
    }
}

} // verus!
