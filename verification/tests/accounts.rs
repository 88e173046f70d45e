use ranklab::notifications::{delivers_reset_email, delivers_signup_notice};
use ranklab::routes::coach::account::plan_coach_signup;
use ranklab::routes::player::account::{plan_player_signup, plan_player_update, UpdatePlayerRequest};
use ranklab::validation::Refusal;
use ranklab::routes::users::plan_user_signup;
use ranklab::config::Config;
use ranklab::routes::coach::account::{
    coach_signup_notice, coach_slug, coach_uniqueness_error, service_agreement, stripe_account_params,
    CreateCoachRequest, UpdateCoachRequest,
};
use ranklab::routes::passwords::{plan_password_reset, reset_password_scope, CreatePasswordRequest, ResetUser};
use ranklab::routes::player::account::{player_uniqueness_error, stripe_customer_params, CreatePlayerRequest};
use ranklab::routes::session::{
    plan_reset, reset_password_link, sign_in, sign_in_error_status, CreateSessionRequest, ResetAccount, ResetPasswordRequest,
    UpdatePasswordRequest, UserType,
};
use ranklab::routes::sessions::{
    create_with_password, signup_identity, Credentials, PasswordCredentials, TokenCredentials,
};
use ranklab::routes::users::{user_uniqueness_error, CreateUserRequest};
use ranklab::secrets::{check_password, hash_password, new_one_time_token, password_result, PasswordError};
use ranklab::validation::FieldError;

const GAMES: [&str; 2] = ["overwatch", "chess"];

fn config(instance_id: Option<&str>) -> Config {
    Config {
        stripe_secret: "sk_test".to_string(),
        web_host: "https://ranklab.gg".to_string(),
        instance_id: instance_id.map(|s| s.to_string()),
        s3_bucket: "bucket".to_string(),
        uploads_bucket: "uploads".to_string(),
        aws_access_key_id: "key".to_string(),
        aws_secret_key: "secret".to_string(),
        recorder_queue: None,
    }
}

fn fields(errors: &[FieldError]) -> Vec<(&'static str, &'static str)> {
    errors.iter().map(|e| (e.field, e.code)).collect()
}

fn coach_request() -> CreateCoachRequest {
    CreateCoachRequest {
        name: "Jane Coach".to_string(),
        email: "jane@example.com".to_string(),
        password: "correct horse".to_string(),
        bio: "I have coached competitive players for ten years.".to_string(),
        game_id: "overwatch".to_string(),
        country: "US".to_string(),
        price: 1000,
    }
}

#[test]
fn valid_coach_signup_passes() {
    assert!(coach_request().validate(&GAMES).is_empty());
}

#[test]
fn coach_signup_failures_in_field_order() {
    let req = CreateCoachRequest {
        name: "J".to_string(),
        email: "not-an-email".to_string(),
        password: "short".to_string(),
        bio: "Too short".to_string(),
        game_id: "".to_string(),
        country: "".to_string(),
        price: 0,
    };
    assert_eq!(
        fields(&req.validate(&GAMES)),
        vec![
            ("name", "length"),
            ("email", "email"),
            ("password", "length"),
            ("bio", "length"),
            ("game_id", "length"),
            ("game_id", "Game ID is not valid"),
            ("country", "length"),
            ("price", "range"),
        ]
    );
    let mut over = coach_request();
    over.price = 10001;
    assert_eq!(fields(&over.validate(&GAMES)), vec![("price", "range")]);
    let mut edge = coach_request();
    edge.price = 10000;
    assert!(edge.validate(&GAMES).is_empty());
}

#[test]
fn coach_profile_change_checks() {
    let req = UpdateCoachRequest {
        name: "Jo".to_string(),
        email: "jo@example.com".to_string(),
        bio: "".to_string(),
        price: 1,
        emails_enabled: true,
    };
    assert_eq!(fields(&req.validate()), vec![("bio", "length")]);
}

#[test]
fn service_agreement_by_country() {
    assert_eq!(service_agreement("US"), "full");
    assert_eq!(service_agreement("GB"), "recipient");
    assert_eq!(service_agreement("us"), "recipient");
}

#[test]
fn coach_stripe_account_parameters() {
    let params = stripe_account_params(&coach_request(), &config(Some("i-1")));
    assert_eq!(params.account_type, "express");
    assert_eq!(params.country, "US");
    assert_eq!(params.email, "jane@example.com");
    assert!(params.transfers_requested);
    assert!(params.tax_reporting_us_1099_misc_requested);
    assert_eq!(params.service_agreement, "full");
    assert_eq!(params.product_description, "Ranklab Coach");
    assert_eq!(params.metadata, vec![("instance_id".to_string(), "i-1".to_string())]);
    let mut uk = coach_request();
    uk.country = "GB".to_string();
    let params = stripe_account_params(&uk, &config(None));
    assert!(!params.tax_reporting_us_1099_misc_requested);
    assert_eq!(params.service_agreement, "recipient");
    assert!(params.metadata.is_empty());
}

#[test]
fn coach_slugs() {
    assert_eq!(coach_slug("Jane Coach"), "jane-coach");
    assert_eq!(coach_slug("  Élodie -- Pro! "), "elodie-pro");
    assert_eq!(coach_slug("alice@bob.com"), "alice-bob-com");
}

#[test]
fn unique_violations_name_their_field() {
    let e = coach_uniqueness_error(Some("coaches_email_key")).unwrap();
    assert_eq!((e.field, e.code), ("email", "uniqueness"));
    let e = coach_uniqueness_error(Some("coaches_slug_key")).unwrap();
    assert_eq!((e.field, e.code), ("name", "uniqueness"));
    assert!(coach_uniqueness_error(Some("coaches_pkey")).is_none());
    assert!(coach_uniqueness_error(None).is_none());
    assert_eq!(player_uniqueness_error(Some("players_email_key")).unwrap().field, "email");
    assert!(player_uniqueness_error(Some("coaches_email_key")).is_none());
    assert_eq!(user_uniqueness_error(Some("users_email_key")).unwrap().code, "uniqueness");
    assert!(user_uniqueness_error(Some("players_email_key")).is_none());
}

#[test]
fn coach_signup_notice_links_the_profile() {
    let n = coach_signup_notice(&config(None), "Jane", "jane@example.com", "jane");
    assert_eq!(n.subject, "A coach has signed up!");
    assert_eq!(n.title, "Jane has signed up to Ranklab");
    assert_eq!(n.body, "Their email is: jane@example.com");
    assert_eq!(n.cta, Some(("Go to Profile".to_string(), "https://ranklab.gg/r/jane".to_string())));
}

#[test]
fn player_customer_parameters() {
    let p = stripe_customer_params("p@example.com", "127.0.0.1", &config(Some("i-2")));
    assert_eq!(p.email, "p@example.com");
    assert_eq!(p.ip_address, "127.0.0.1");
    assert_eq!(p.metadata, vec![("instance_id".to_string(), "i-2".to_string())]);
    assert_eq!(p.idempotency_key, ranklab::stripe::idempotency_key("p@example.com"));
}

#[test]
fn player_signup_checks_game_and_level() {
    let req = CreatePlayerRequest {
        name: "P".to_string(),
        credentials: Credentials::Token(TokenCredentials { token: "t".to_string() }),
        game_id: "golf".to_string(),
        skill_level: 3,
    };
    assert_eq!(fields(&req.validate(&GAMES)), vec![("name", "length"), ("game_id", "Game ID is not valid")]);
    assert!(req.skill_level_allowed(&[1, 2, 3]));
    assert!(!req.skill_level_allowed(&[1, 2]));
}

#[test]
fn signup_identity_from_credentials() {
    let password = Credentials::Password(PasswordCredentials {
        email: "a@b.c".to_string(),
        password: "secret123".to_string(),
    });
    assert_eq!(signup_identity(&password, None), Ok(("a@b.c".to_string(), Some("secret123".to_string()))));
    let token = Credentials::Token(TokenCredentials { token: "jwt".to_string() });
    assert_eq!(signup_identity(&token, Some("sub@b.c".to_string())), Ok(("sub@b.c".to_string(), None)));
    assert_eq!(signup_identity(&token, None), Err(422));
}

#[test]
fn user_signup_name_check() {
    let req = CreateUserRequest {
        name: "A".to_string(),
        credentials: Credentials::Token(TokenCredentials { token: "jwt".to_string() }),
    };
    assert_eq!(fields(&req.validate()), vec![("name", "length")]);
}

#[test]
fn stored_password_signs_in() {
    let hash = hash_password("hunter22").unwrap();
    assert!(check_password("hunter22", &hash).is_ok());
    assert_eq!(check_password("hunter23", &hash), Err(PasswordError::Mismatch));
    assert_eq!(check_password("hunter22", "not a hash"), Err(PasswordError::UnreadableHash));
    let req = CreateSessionRequest {
        email: "a@b.c".to_string(),
        password: "hunter22".to_string(),
        user_type: UserType::Player,
    };
    assert_eq!(sign_in(&req, &hash), Ok(()));
    let wrong = CreateSessionRequest { password: "nope".to_string(), ..req };
    assert_eq!(sign_in(&wrong, &hash), Err(404));
    assert_eq!(sign_in(&wrong, "$2b$xx"), Err(422));
}

#[test]
fn new_password_signs_in() {
    let req = UpdatePasswordRequest { password: "brand new pass".to_string() };
    let hash = req.hashed().unwrap();
    assert!(check_password("brand new pass", &hash).is_ok());
}

#[test]
fn password_outcomes_and_statuses() {
    assert_eq!(password_result(None), Err(PasswordError::UnreadableHash));
    assert_eq!(password_result(Some(false)), Err(PasswordError::Mismatch));
    assert_eq!(password_result(Some(true)), Ok(()));
    assert_eq!(sign_in_error_status(PasswordError::UnreadableHash), 422);
    assert_eq!(sign_in_error_status(PasswordError::Mismatch), 404);
}

#[test]
fn password_sign_in_for_users() {
    let hash = hash_password("pw-123456").unwrap();
    let creds = PasswordCredentials { email: "u@b.c".to_string(), password: "pw-123456".to_string() };
    assert!(create_with_password(&creds, &Some(hash.clone())));
    assert!(!create_with_password(&creds, &None));
    let wrong = PasswordCredentials { email: "u@b.c".to_string(), password: "other".to_string() };
    assert!(!create_with_password(&wrong, &Some(hash)));
    assert!(!create_with_password(&creds, &Some("garbage".to_string())));
}

#[test]
fn reset_links_and_plans() {
    assert_eq!(
        reset_password_link("https://ranklab.gg", "AbC123", UserType::Coach),
        "https://ranklab.gg/password/reset?token=AbC123&user_type=coach"
    );
    let req = ResetPasswordRequest { email: "p@b.c".to_string(), user_type: UserType::Player };
    let player = || Some(ResetAccount { kind: UserType::Player, id: 7, name: "Pat".to_string() });
    let plan = plan_reset(&req, player(), "https://ranklab.gg", "tok".to_string(), "release");
    assert_eq!(plan.status, 200);
    assert!(plan.deliver);
    let token = plan.token.unwrap();
    assert_eq!((token.value.as_str(), token.coach_id, token.player_id), ("tok", None, Some(7)));
    let in_test = plan_reset(&req, player(), "https://ranklab.gg", "tok".to_string(), "test");
    assert!(in_test.email.is_some());
    assert!(in_test.token.is_some());
    assert!(!in_test.deliver);
    let (to, name, email) = plan.email.unwrap();
    assert_eq!(to, "p@b.c");
    assert_eq!(name, "Pat");
    assert_eq!(email.subject, "Reset Your Password");
    assert_eq!(
        email.cta.unwrap().1,
        "https://ranklab.gg/password/reset?token=tok&user_type=player"
    );
    let coach = Some(ResetAccount { kind: UserType::Coach, id: 9, name: "Jane".to_string() });
    let token = plan_reset(&req, coach, "https://ranklab.gg", "t2".to_string(), "release").token.unwrap();
    assert_eq!((token.coach_id, token.player_id), (Some(9), None));
    let unknown = plan_reset(&req, None, "https://ranklab.gg", "tok".to_string(), "release");
    assert_eq!(unknown.status, 200);
    assert!(unknown.email.is_none());
    assert!(unknown.token.is_none());
    assert!(!unknown.deliver);

    let user_req = CreatePasswordRequest { email: "u@b.c".to_string() };
    let user = || Some(ResetUser { id: 3, name: "Una".to_string() });
    let plan = plan_password_reset(&user_req, user(), "https://ranklab.gg", "tok".to_string(), "release");
    assert_eq!(plan.status, 200);
    let token = plan.token.unwrap();
    assert_eq!((token.value.as_str(), token.scope, token.user_id), ("tok", "reset_password", 3));
    let (to, name, email) = plan.email.unwrap();
    assert_eq!((to.as_str(), name.as_str()), ("u@b.c", "Una"));
    assert_eq!(email.cta.unwrap().1, "https://ranklab.gg/password/reset?token=tok");
    let none = plan_password_reset(&user_req, None, "https://ranklab.gg", "tok".to_string(), "release");
    assert_eq!(none.status, 200);
    assert!(none.email.is_none());
    assert!(none.token.is_none());
    assert_eq!(reset_password_scope(), "reset_password");
    assert!(!plan_password_reset(&user_req, user(), "https://ranklab.gg", "tok".to_string(), "test").deliver);
}

#[test]
fn one_time_tokens_are_sixteen_alphanumerics() {
    let a = new_one_time_token();
    assert_eq!(a.chars().count(), 16);
    assert!(a.chars().all(|c| c.is_ascii_alphanumeric()));
}

#[test]
fn signup_notices_go_to_sales() {
    assert_eq!(ranklab::notifications::sales_recipient(), "sales@ranklab.gg");
    let n = ranklab::routes::player::account::player_signup_notice("Pat", "pat@b.c");
    assert_eq!(n.subject, "A player has signed up!");
    assert!(n.cta.is_none());
    let u = ranklab::routes::users::user_signup_notice("Sam", "sam@b.c");
    assert_eq!(u.title, "Sam has signed up to Ranklab");
    assert_eq!(u.body, "Their email is: sam@b.c");
}

#[test]
fn mail_delivery_by_profile() {
    assert!(delivers_reset_email("release"));
    assert!(delivers_reset_email("debug"));
    assert!(!delivers_reset_email("test"));
    assert!(delivers_signup_notice("release"));
    assert!(!delivers_signup_notice("debug"));
}

#[test]
fn coach_signup_stops_at_failed_checks() {
    let mut bad = coach_request();
    bad.bio = "short".to_string();
    let errors = plan_coach_signup(&bad, &GAMES, &config(None)).err().unwrap();
    assert_eq!(fields(&errors), vec![("bio", "length")]);
    let plan = plan_coach_signup(&coach_request(), &GAMES, &config(None)).ok().unwrap();
    assert_eq!(plan.account.account_type, "express");
    assert_eq!(plan.slug, "jane-coach");
    assert_eq!(plan.idempotency_key, ranklab::stripe::idempotency_key("jane@example.com"));
}

#[test]
fn player_signup_and_update_steps() {
    let req = CreatePlayerRequest {
        name: "Pat".to_string(),
        credentials: Credentials::Password(PasswordCredentials {
            email: "pat@b.c".to_string(),
            password: "pw".to_string(),
        }),
        game_id: "chess".to_string(),
        skill_level: 2,
    };
    let plan = plan_player_signup(&req, &GAMES, &[1, 2], None, "10.0.0.1", &config(None)).ok().unwrap();
    assert_eq!(plan.email, "pat@b.c");
    assert_eq!(plan.password, Some("pw".to_string()));
    assert_eq!(plan.customer.ip_address, "10.0.0.1");
    assert!(matches!(plan_player_signup(&req, &GAMES, &[1], None, "ip", &config(None)), Err(Refusal::Status(422))));
    let token = CreatePlayerRequest {
        credentials: Credentials::Token(TokenCredentials { token: "t".to_string() }),
        ..req
    };
    assert!(matches!(plan_player_signup(&token, &GAMES, &[2], None, "ip", &config(None)), Err(Refusal::Status(422))));
    let update = UpdatePlayerRequest {
        name: "P".to_string(),
        game_id: "chess".to_string(),
        skill_level: 9,
        emails_enabled: true,
    };
    assert!(matches!(plan_player_update(&update, &GAMES, &[1], 1), Err(Refusal::Invalid(_))));
    let update = UpdatePlayerRequest { name: "Pat".to_string(), ..update };
    assert!(plan_player_update(&update, &GAMES, &[1, 3], 3).is_ok());
    assert!(matches!(plan_player_update(&update, &GAMES, &[1], 3), Err(Refusal::Status(422))));
}

#[test]
fn user_signup_steps() {
    let req = CreateUserRequest {
        name: "Sam".to_string(),
        credentials: Credentials::Token(TokenCredentials { token: "t".to_string() }),
    };
    let plan = plan_user_signup(&req, Some("sam@b.c".to_string())).ok().unwrap();
    assert_eq!(plan.email, "sam@b.c");
    assert!(plan.password.is_none());
    assert!(matches!(plan_user_signup(&req, None), Err(Refusal::Status(422))));
}
