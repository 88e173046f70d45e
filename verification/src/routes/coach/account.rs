//! `/coach/account`: a coach's signup, with the Stripe account made for
//! their payouts, and changes to their profile.

use vstd::prelude::*;
use crate::config::Config;
use crate::notifications::{Notification, email_body, signed_up_title, signup_notice};
use crate::slug::{slug_of, slug_spec, well_formed_slug};
use crate::stripe::{idempotency_key, idempotency_key_spec};
use crate::text::{pair, pair_views};
use crate::validation::{
    FieldError, check_email, check_game, check_length, check_range, email_check, error_views, game_check,
    length_check, range_check, uniqueness_error, uniqueness_field,
};

verus! {

/// A coach's signup.
pub struct CreateCoachRequest {
    pub name: String,
    pub email: String,
    pub password: String,
    pub bio: String,
    pub game_id: String,
    pub country: String,
    /// The price of a review, in cents.
    pub price: i32,
}

/// A change to a coach's profile.
pub struct UpdateCoachRequest {
    pub name: String,
    pub email: String,
    pub bio: String,
    pub price: i32,
    pub emails_enabled: bool,
}

/// The failures of a signup, field by field: a name of two characters or
/// more, a valid e-mail, a password of eight or more, a bio of thirty or
/// more, a game id that is given and known (`games`), a country, and a price
/// from 1 to 10000.
pub open spec fn create_coach_errors(req: CreateCoachRequest, games: Seq<&str>) -> Seq<(Seq<char>, Seq<char>)> {
    length_check("name"@, req.name@, 2) + email_check("email"@, req.email@) + length_check(
        "password"@,
        req.password@,
        8,
    ) + length_check("bio"@, req.bio@, 30) + length_check("game_id"@, req.game_id@, 1) + game_check(
        "game_id"@,
        req.game_id@,
        games,
    ) + length_check("country"@, req.country@, 1) + range_check("price"@, req.price as int, 1, 10000)
}

/// The failures of a profile change: a name of two characters or more, a
/// valid e-mail, a bio, and a price from 1 to 10000.
pub open spec fn update_coach_errors(req: UpdateCoachRequest) -> Seq<(Seq<char>, Seq<char>)> {
    length_check("name"@, req.name@, 2) + email_check("email"@, req.email@) + length_check("bio"@, req.bio@, 1)
        + range_check("price"@, req.price as int, 1, 10000)
}

/// A profile change fails its price check exactly when the price is outside
/// 1 to 10000 cents.
pub proof fn lemma_update_price_checked(req: UpdateCoachRequest)
    ensures
        update_coach_errors(req).contains(("price"@, "range"@)) <==> (req.price < 1 || req.price > 10000),
{
    reveal_strlit("price");
    reveal_strlit("name");
    reveal_strlit("email");
    reveal_strlit("bio");
    let front = length_check("name"@, req.name@, 2) + email_check("email"@, req.email@) + length_check(
        "bio"@,
        req.bio@,
        1,
    );
    let back = range_check("price"@, req.price as int, 1, 10000);
    let all = update_coach_errors(req);
    assert(all == front + back);
    assert forall|i: int| 0 <= i < front.len() implies (#[trigger] front[i]).0 != "price"@ by {
        let a = length_check("name"@, req.name@, 2);
        let b = email_check("email"@, req.email@);
        if i < a.len() {
            assert(front[i] == a[i]);
            assert(a[i].0 == "name"@);
            assert("name"@[0] != "price"@[0]);
        } else if i < a.len() + b.len() {
            assert(front[i] == b[i - a.len()]);
            assert("email"@[0] != "price"@[0]);
        } else {
            assert(front[i] == length_check("bio"@, req.bio@, 1)[i - a.len() - b.len()]);
            assert("bio"@[0] != "price"@[0]);
        }
    }
    if req.price < 1 || req.price > 10000 {
        assert(all[front.len() as int] == ("price"@, "range"@));
    } else {
        assert(back.len() == 0);
        assert(all =~= front);
        if all.contains(("price"@, "range"@)) {
            let i = choose|i: int| 0 <= i < all.len() && all[i] == ("price"@, "range"@);
            assert(front[i].0 != "price"@);
        }
    }
}

impl CreateCoachRequest {
    /// Checks the signup against the known games.
    pub fn validate(&self, games: &[&str]) -> (r: Vec<FieldError>)
        ensures
            error_views(r@) == create_coach_errors(*self, games@),
            self.name@.len() < 2 ==> error_views(r@).contains(("name"@, "length"@)),
            !crate::validation::email_valid_spec(self.email@) ==> error_views(r@).contains(("email"@, "email"@)),
            self.password@.len() < 8 ==> error_views(r@).contains(("password"@, "length"@)),
            self.bio@.len() < 30 ==> error_views(r@).contains(("bio"@, "length"@)),
            self.game_id@.len() < 1 ==> error_views(r@).contains(("game_id"@, "length"@)),
            !crate::validation::known_game(self.game_id@, games@) ==> error_views(r@).contains(("game_id"@, "Game ID is not valid"@)),
            self.country@.len() < 1 ==> error_views(r@).contains(("country"@, "length"@)),
            self.price < 1 || self.price > 10000 ==> error_views(r@).contains(("price"@, "range"@)),
            r@.len() == 0 <==> (self.name@.len() >= 2 && crate::validation::email_valid_spec(self.email@) && self.password@.len() >= 8 && self.bio@.len() >= 30 && self.game_id@.len() >= 1 && crate::validation::known_game(self.game_id@, games@) && self.country@.len() >= 1 && 1 <= self.price <= 10000),
    {
        let mut errors: Vec<FieldError> = Vec::new();
        check_length(&mut errors, "name", self.name.as_str(), 2);
        check_email(&mut errors, "email", self.email.as_str());
        check_length(&mut errors, "password", self.password.as_str(), 8);
        check_length(&mut errors, "bio", self.bio.as_str(), 30);
        check_length(&mut errors, "game_id", self.game_id.as_str(), 1);
        check_game(&mut errors, "game_id", self.game_id.as_str(), games);
        check_length(&mut errors, "country", self.country.as_str(), 1);
        check_range(&mut errors, "price", self.price as i64, 1, 10000);
        assert(error_views(errors@) =~= create_coach_errors(*self, games@));
        errors
    }
}

impl UpdateCoachRequest {
    /// Checks the profile change.
    pub fn validate(&self) -> (r: Vec<FieldError>)
        ensures
            error_views(r@) == update_coach_errors(*self),
            self.name@.len() < 2 ==> error_views(r@).contains(("name"@, "length"@)),
            !crate::validation::email_valid_spec(self.email@) ==> error_views(r@).contains(("email"@, "email"@)),
            self.bio@.len() < 1 ==> error_views(r@).contains(("bio"@, "length"@)),
            self.price < 1 || self.price > 10000 ==> error_views(r@).contains(("price"@, "range"@)),
            r@.len() == 0 <==> (self.name@.len() >= 2 && crate::validation::email_valid_spec(self.email@) && self.bio@.len() >= 1 && 1 <= self.price <= 10000),
            error_views(r@).contains(("price"@, "range"@)) <==> (self.price < 1 || self.price > 10000),
    {
        let mut errors: Vec<FieldError> = Vec::new();
        check_length(&mut errors, "name", self.name.as_str(), 2);
        check_email(&mut errors, "email", self.email.as_str());
        check_length(&mut errors, "bio", self.bio.as_str(), 1);
        check_range(&mut errors, "price", self.price as i64, 1, 10000);
        assert(error_views(errors@) =~= update_coach_errors(*self));
        proof {
            lemma_update_price_checked(*self);
        }
        errors
    }
}

/// Whether a country is the United States.
pub open spec fn is_us(country: Seq<char>) -> bool {
    country == "US"@
}

/// The Stripe services agreement a coach accepts: `full` in the United
/// States, `recipient` elsewhere.
pub fn service_agreement(country: &str) -> (r: &'static str)
    ensures
        country@ == "US"@ ==> r@ == "full"@,
        country@ != "US"@ ==> r@ == "recipient"@,
        r@ == (if is_us(country@) {
            "full"@
        } else {
            "recipient"@
        }),
{
    if crate::text::str_eq(country, "US") {
        "full"
    } else {
        "recipient"
    }
}

/// The metadata of the Stripe objects the service makes: the deployment's
/// id under `instance_id`, if configured.
pub fn instance_metadata(config: &Config) -> (r: Vec<(String, String)>)
    ensures
        pair_views(r@) == match config.instance_id {
            Some(id) => seq![("instance_id"@, id@)],
            None => Seq::<(Seq<char>, Seq<char>)>::empty(),
        },
{
    let mut r: Vec<(String, String)> = Vec::new();
    if let Some(instance_id) = &config.instance_id {
        r.push(pair("instance_id", instance_id.as_str()));
    }
    assert(pair_views(r@) =~= match config.instance_id {
        Some(id) => seq![("instance_id"@, id@)],
        None => Seq::<(Seq<char>, Seq<char>)>::empty(),
    });
    r
}

/// The parameters of the Express account made for a coach's payouts.
pub struct CoachAccountParams {
    /// The kind of connected account: `express`.
    pub account_type: &'static str,
    pub country: String,
    pub email: String,
    /// Transfers are always requested.
    pub transfers_requested: bool,
    /// The 1099-MISC tax reporting capability, requested for US coaches.
    pub tax_reporting_us_1099_misc_requested: bool,
    pub service_agreement: &'static str,
    pub product_description: &'static str,
    pub metadata: Vec<(String, String)>,
}

/// The parameters of a coach's Stripe account: an Express account with the
/// country and e-mail from the signup, transfers requested, 1099-MISC
/// reporting requested in the United States, the agreement for the country,
/// the product `Ranklab Coach`, and the deployment's metadata.
pub fn stripe_account_params(req: &CreateCoachRequest, config: &Config) -> (r: CoachAccountParams)
    ensures
        r.account_type@ == "express"@,
        r.country@ == req.country@,
        r.email@ == req.email@,
        r.transfers_requested,
        r.tax_reporting_us_1099_misc_requested == is_us(req.country@),
        r.service_agreement@ == (if is_us(req.country@) {
            "full"@
        } else {
            "recipient"@
        }),
        r.product_description@ == "Ranklab Coach"@,
        pair_views(r.metadata@) == match config.instance_id {
            Some(id) => seq![("instance_id"@, id@)],
            None => Seq::<(Seq<char>, Seq<char>)>::empty(),
        },
{
    CoachAccountParams {
        account_type: "express",
        country: req.country.clone(),
        email: req.email.clone(),
        transfers_requested: true,
        tax_reporting_us_1099_misc_requested: crate::text::str_eq(req.country.as_str(), "US"),
        service_agreement: service_agreement(req.country.as_str()),
        product_description: "Ranklab Coach",
        metadata: instance_metadata(config),
    }
}

/// The slug of a coach's profile, made from their name.
pub fn coach_slug(name: &str) -> (r: String)
    ensures
        r@ == slug_spec(name@),
        well_formed_slug(r@),
{
    slug_of(name)
}

/// The failure reported when saving a coach violates a unique constraint:
/// `email` for `coaches_email_key`, `name` for `coaches_slug_key` (two coaches
/// whose names give the same slug), each with the code `uniqueness`; `None`
/// for any other constraint, which is an internal error.
pub fn coach_uniqueness_error(constraint: Option<&str>) -> (r: Option<FieldError>)
    ensures
        match constraint {
            Some(c) => if c@ == "coaches_email_key"@ {
                r matches Some(e) && e.field@ == "email"@ && e.code@ == "uniqueness"@
            } else if c@ == "coaches_slug_key"@ {
                r matches Some(e) && e.field@ == "name"@ && e.code@ == "uniqueness"@
            } else {
                r is None
            },
            None => r is None,
        },
{
    let rules: [(&str, &'static str); 2] = [("coaches_email_key", "email"), ("coaches_slug_key", "name")];
    let sl = rules.as_slice();
    let r = uniqueness_error(constraint, sl);
    proof {
        reveal_strlit("coaches_email_key");
        reveal_strlit("coaches_slug_key");
        let s = rules@;
        assert(sl@ == s);
        assert(s.drop_first()[0] == s[1]);
        assert(s.drop_first().drop_first().len() == 0);
        if let Some(c) = constraint {
            assert(uniqueness_field(Some(c@), s.drop_first().drop_first()) is None);
            if c@ != "coaches_email_key"@ {
                assert(uniqueness_field(Some(c@), s) == uniqueness_field(Some(c@), s.drop_first()));
            }
        }
    }
    r
}

/// The link to a coach's public profile: `<web_host>/r/<slug>`.
pub open spec fn profile_link(web_host: Seq<char>, slug: Seq<char>) -> Seq<char> {
    web_host + "/r/"@ + slug
}

/// The notice sent to sales when a coach signs up, with a button to their
/// profile.
pub fn coach_signup_notice(config: &Config, name: &str, email: &str, slug: &str) -> (r: Notification)
    ensures
        r.subject@ == "A coach has signed up!"@,
        r.title@ == signed_up_title(name@),
        r.body@ == email_body(email@),
        r.unsubscribe_url is None,
        r.cta matches Some(c) && c.0@ == "Go to Profile"@ && c.1@ == profile_link(config.web_host@, slug@),
{
    let mut n = signup_notice("A coach has signed up!", name, email);
    let link = String::from_str(config.web_host.as_str()).concat("/r/").concat(slug);
    n.cta = Some((String::from_str("Go to Profile"), link));
    n
}

/// What a coach's signup does once its checks pass: the Stripe account to
/// make (with the e-mail's idempotency key) and the profile's slug.
pub struct CoachSignupPlan {
    pub account: CoachAccountParams,
    pub idempotency_key: String,
    pub slug: String,
}

/// The first step of a coach's signup: a request that fails its checks is
/// answered with the failures, before Stripe or the database is reached;
/// otherwise the account to make, its idempotency key and the slug.
pub fn plan_coach_signup(req: &CreateCoachRequest, games: &[&str], config: &Config) -> (r: Result<
    CoachSignupPlan,
    Vec<FieldError>,
>)
    ensures
        match r {
            Err(errors) => create_coach_errors(*req, games@).len() > 0 && error_views(errors@)
                == create_coach_errors(*req, games@),
            Ok(plan) => {
                &&& create_coach_errors(*req, games@).len() == 0
                &&& plan.account.account_type@ == "express"@
                &&& plan.account.country@ == req.country@
                &&& plan.account.email@ == req.email@
                &&& plan.account.transfers_requested
                &&& plan.account.tax_reporting_us_1099_misc_requested == is_us(req.country@)
                &&& plan.account.service_agreement@ == (if is_us(req.country@) {
                    "full"@
                } else {
                    "recipient"@
                })
                &&& plan.account.product_description@ == "Ranklab Coach"@
                &&& pair_views(plan.account.metadata@) == match config.instance_id {
                    Some(id) => seq![("instance_id"@, id@)],
                    None => Seq::<(Seq<char>, Seq<char>)>::empty(),
                }
                &&& plan.idempotency_key@ == idempotency_key_spec(req.email@)
                &&& plan.slug@ == slug_spec(req.name@)
            },
        },
{
    let errors = req.validate(games);
    if errors.len() > 0 {
        return Err(errors);
    }
    Ok(CoachSignupPlan {
        account: stripe_account_params(req, config),
        idempotency_key: idempotency_key(req.email.as_str()),
        slug: coach_slug(req.name.as_str()),
    })
}

} // verus!
