use hmac::Mac;
use ranklab::decimal::{parse_i64, render_i64};
use ranklab::stripe::ids::OrderId;
use ranklab::stripe::order::{
    OrderAutomaticTaxStatus, OrderPaymentSettingsPaymentMethodType, OrderPaymentStatus, OrderStatus,
    OrderTaxExempt,
};
use ranklab::stripe::webhook_events::{EventType, EventTypeExt, Signature, Webhook, WebhookError};
use ranklab::stripe::{classify_status, idempotency_key, RequestErrorKind};

fn sign(secret: &str, t: i64, payload: &str) -> String {
    let mut mac = hmac::Hmac::<sha2::Sha256>::new_from_slice(secret.as_bytes()).unwrap();
    mac.update(format!("{}.{}", t, payload).as_bytes());
    hex::encode(mac.finalize().into_bytes())
}

#[test]
fn decimal_parse_and_render() {
    assert_eq!(parse_i64("0"), Some(0));
    assert_eq!(parse_i64("1492774577"), Some(1492774577));
    assert_eq!(parse_i64("-42"), Some(-42));
    assert_eq!(parse_i64("+7"), Some(7));
    assert_eq!(parse_i64(""), None);
    assert_eq!(parse_i64("-"), None);
    assert_eq!(parse_i64("12a"), None);
    assert_eq!(parse_i64("9223372036854775807"), Some(i64::MAX));
    assert_eq!(parse_i64("9223372036854775808"), None);
    assert_eq!(parse_i64("-9223372036854775808"), Some(i64::MIN));
    assert_eq!(render_i64(0), "0");
    assert_eq!(render_i64(-305), "-305");
    assert_eq!(render_i64(i64::MIN), "-9223372036854775808");
}

#[test]
fn decimal_round_trip() {
    for n in [0i64, 1, -1, 10, 999, -1000, i64::MAX, i64::MIN] {
        assert_eq!(parse_i64(&render_i64(n)), Some(n));
    }
}

#[test]
fn signature_header_parses() {
    let s = Signature::parse("t=1492774577,v1=5257a869e7ecebeda32affa62cdca3fa51cad7e77a0e56ff536d0ce8e108d8bd").unwrap();
    assert_eq!(s.t, 1492774577);
    assert_eq!(s.v1, "5257a869e7ecebeda32affa62cdca3fa51cad7e77a0e56ff536d0ce8e108d8bd");
    let later = Signature::parse("t=1,v1=aa,v0=bb,t=2").unwrap();
    assert_eq!(later.t, 2);
    assert!(matches!(Signature::parse("v1=aa"), Err(WebhookError::BadSignature)));
    assert!(matches!(Signature::parse("t=1"), Err(WebhookError::BadSignature)));
    assert!(matches!(Signature::parse("t=x,v1=aa"), Err(WebhookError::BadHeader)));
}

#[test]
fn signed_webhook_is_accepted() {
    let payload = "{\"id\":\"evt_1\",\"type\":\"order.completed\"}";
    let secret = "whsec_test";
    let header = format!("t=1700000000,v1={}", sign(secret, 1700000000, payload));
    assert!(Webhook::verify(payload, &header, secret).is_ok());
}

#[test]
fn tampered_webhook_is_refused() {
    let payload = "{\"id\":\"evt_1\"}";
    let secret = "whsec_test";
    let header = format!("t=1700000000,v1={}", sign(secret, 1700000000, payload));
    assert!(matches!(Webhook::verify("{\"id\":\"evt_2\"}", &header, secret), Err(WebhookError::BadSignature)));
    assert!(matches!(Webhook::verify(payload, &header, "whsec_other"), Err(WebhookError::BadSignature)));
    assert!(matches!(Webhook::verify(payload, "t=1700000000,v1=zz", secret), Err(WebhookError::BadSignature)));
    assert!(matches!(Webhook::verify(payload, "v1=00", secret), Err(WebhookError::BadSignature)));
}

#[test]
fn order_ids_need_their_prefix() {
    let id = OrderId::parse("order_1Mr").unwrap();
    assert_eq!(id.as_str(), "order_1Mr");
    assert!(id.eq_str("order_1Mr"));
    let err = OrderId::parse("cus_1Mr").unwrap_err();
    assert_eq!(err.typename, "OrderId");
    assert_eq!(err.expected, "id to start with \"order_\"");
    assert!(OrderId::parse("").is_err());
    assert!(OrderId::parse("order_").is_ok());
}

#[test]
fn order_enum_wire_names() {
    assert_eq!(OrderStatus::Created.as_str(), "created");
    assert_eq!(OrderStatus::Fulfilled.as_str(), "fulfilled");
    assert_eq!(OrderStatus::Returned.as_str(), "returned");
    assert_eq!(OrderStatus::Canceled.as_str(), "canceled");
    assert_eq!(OrderAutomaticTaxStatus::RequiresLocationInputs.as_str(), "requires_location_inputs");
    assert_eq!(OrderTaxExempt::NotExempt.as_str(), "none");
    assert_eq!(OrderPaymentSettingsPaymentMethodType::WechatPay.as_str(), "wechat_pay");
    assert_eq!(OrderPaymentSettingsPaymentMethodType::AfterpayClearpay.as_str(), "afterpay_clearpay");
    assert_eq!(OrderPaymentStatus::RequiresPaymentMethod.as_str(), "requires_payment_method");
}

#[test]
fn event_type_names() {
    assert_eq!(EventTypeExt::OrderCompleted.as_str(), "order.completed");
    assert_eq!(EventType::from_name("order.payment_succeeded"), EventType::Ext(EventTypeExt::OrderPaymentSucceeded));
    assert_eq!(EventType::from_name("charge.refunded"), EventType::Other("charge.refunded".to_string()));
}

#[test]
fn request_failures_are_classified() {
    assert_eq!(classify_status(Some(400)), RequestErrorKind::BadRequest);
    assert_eq!(classify_status(Some(500)), RequestErrorKind::ServerError);
    assert_eq!(classify_status(None), RequestErrorKind::ServerError);
}

#[test]
fn idempotency_key_is_the_hex_sha256_of_the_email() {
    // SHA-256 of "abc".
    assert_eq!(idempotency_key("abc"), "ba7816bf8f01cfea414140de5dae2223b00361a396177a9cb410ff61f20015ad");
    assert_eq!(idempotency_key("a@b.c").len(), 64);
    assert_ne!(idempotency_key("a@b.c"), idempotency_key("a@b.d"));
}
