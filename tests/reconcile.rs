use hmac::{Hmac, Mac};
use sha2::Sha512;

use school_payments::errors::AppError;
use school_payments::models::{CreateStudentRequest, PaymentStatus};
use school_payments::payments::{
    gateway_outcome, payment_reference, PaystackInitData, PAYMENT_AMOUNT_KOBO,
};
use school_payments::store::AppStore;
use school_payments::webhook::{expected_signature, signature_valid, signatures_equal, WebhookEvent, WebhookStatus};

const SECRET: &[u8] = b"sk_test_webhook";

fn sign(body: &[u8]) -> String {
    let mut mac = Hmac::<Sha512>::new_from_slice(SECRET).unwrap();
    mac.update(body);
    hex::encode(mac.finalize().into_bytes())
}

fn store_with_student() -> AppStore {
    let mut store = AppStore::new();
    let req = CreateStudentRequest {
        first_name: "Ada".to_string(),
        last_name: "Obi".to_string(),
        email: "ada@example.com".to_string(),
        department: "Maths".to_string(),
    };
    store.insert_student(10, 1, "alpha".to_string(), req).unwrap();
    store
}

fn charge(reference: &str) -> Vec<u8> {
    format!("{{\"event\":\"charge.success\",\"data\":{{\"reference\":\"{}\",\"amount\":500000}}}}", reference)
        .into_bytes()
}

#[test]
fn known_hmac_sha512_vector() {
    let sig = expected_signature(b"Jefe", b"what do ya want for nothing?");
    assert_eq!(
        String::from_utf8(sig).unwrap(),
        "164b7a7bfcf819e2e395fbe73b56e0a387bd64222e831fd610270cd7ea2505549758bf75c05a994a6d034f65f8f0e6fdcaeab1a34d4a6b4b636e070a38bce737"
    );
}

#[test]
fn signature_comparison() {
    assert!(signatures_equal(b"abc", b"abc"));
    assert!(!signatures_equal(b"abc", b"abd"));
    assert!(!signatures_equal(b"abc", b"ab"));
    assert!(signatures_equal(b"", b""));
    let body = charge("x");
    assert!(signature_valid(SECRET, &body, Some(sign(&body).as_bytes())));
    assert!(!signature_valid(SECRET, &body, None));
    assert!(!signature_valid(b"other", &body, Some(sign(&body).as_bytes())));
}

#[test]
fn signed_charge_marks_paid_and_redelivery_is_harmless() {
    let mut store = store_with_student();
    store.set_payment_reference(1, 10, "sch-abc".to_string()).unwrap();
    let body = charge("sch-abc");
    let sig = sign(&body);
    assert_eq!(store.handle_webhook(SECRET, Some(sig.as_bytes()), &body), WebhookStatus::Acknowledged);
    assert_eq!(store.students[0].status, PaymentStatus::Paid);
    assert_eq!(store.handle_webhook(SECRET, Some(sig.as_bytes()), &body), WebhookStatus::Acknowledged);
    assert_eq!(store.students[0].status, PaymentStatus::Paid);
}

#[test]
fn bad_or_missing_signature_changes_nothing() {
    let mut store = store_with_student();
    store.set_payment_reference(1, 10, "sch-abc".to_string()).unwrap();
    let body = charge("sch-abc");
    let mut wrong = sign(&body);
    wrong.replace_range(0..1, if wrong.starts_with('0') { "1" } else { "0" });
    assert_eq!(store.handle_webhook(SECRET, Some(wrong.as_bytes()), &body), WebhookStatus::Unauthorized);
    assert_eq!(store.handle_webhook(SECRET, None, &body), WebhookStatus::Unauthorized);
    let upper = sign(&body).to_uppercase();
    assert_eq!(store.handle_webhook(SECRET, Some(upper.as_bytes()), &body), WebhookStatus::Unauthorized);
    assert_eq!(store.students[0].status, PaymentStatus::Pending);
}

#[test]
fn unknown_reference_is_still_acknowledged() {
    let mut store = store_with_student();
    let body = charge("sch-unknown");
    let sig = sign(&body);
    assert_eq!(store.handle_webhook(SECRET, Some(sig.as_bytes()), &body), WebhookStatus::Acknowledged);
    assert_eq!(store.students[0].status, PaymentStatus::Pending);
}

#[test]
fn signed_garbage_is_bad_request() {
    let mut store = store_with_student();
    let body = b"not json".to_vec();
    let sig = sign(&body);
    assert_eq!(store.handle_webhook(SECRET, Some(sig.as_bytes()), &body), WebhookStatus::BadRequest);
}

#[test]
fn other_events_change_nothing() {
    let mut store = store_with_student();
    store.set_payment_reference(1, 10, "sch-abc".to_string()).unwrap();
    let body = br#"{"event":"charge.failed","data":{"reference":"sch-abc"}}"#.to_vec();
    let sig = sign(&body);
    assert_eq!(store.handle_webhook(SECRET, Some(sig.as_bytes()), &body), WebhookStatus::Acknowledged);
    let body = br#"{"event":"charge.success","data":{"reference":7}}"#.to_vec();
    let sig = sign(&body);
    assert_eq!(store.handle_webhook(SECRET, Some(sig.as_bytes()), &body), WebhookStatus::Acknowledged);
    assert_eq!(store.students[0].status, PaymentStatus::Pending);
}

#[test]
fn apply_event_directly() {
    let mut store = store_with_student();
    store.set_payment_reference(1, 10, "r1".to_string()).unwrap();
    assert_eq!(store.apply_webhook_event(None), WebhookStatus::BadRequest);
    let ev = WebhookEvent { event: Some("charge.success".to_string()), reference: None };
    assert_eq!(store.apply_webhook_event(Some(ev)), WebhookStatus::Acknowledged);
    assert_eq!(store.students[0].status, PaymentStatus::Pending);
    let ev = WebhookEvent { event: Some("charge.success".to_string()), reference: Some("r1".to_string()) };
    assert_eq!(store.apply_webhook_event(Some(ev)), WebhookStatus::Acknowledged);
    assert_eq!(store.students[0].status, PaymentStatus::Paid);
}

#[test]
fn reference_has_prefix() {
    assert_eq!(payment_reference("abc"), "sch-abc");
    assert_eq!(payment_reference(""), "sch-");
}

#[test]
fn prepare_payment_for_own_student() {
    let store = store_with_student();
    let p = store.prepare_payment(1, 10).unwrap();
    assert_eq!(p.email, "ada@example.com");
    assert_eq!(p.amount, 500_000);
    assert_eq!(PAYMENT_AMOUNT_KOBO, 500_000);
    assert!(p.reference.starts_with("sch-"));
    assert_eq!(p.reference.len(), 40);
    let q = store.prepare_payment(1, 10).unwrap();
    assert_ne!(p.reference, q.reference);
    assert!(matches!(store.prepare_payment(2, 10), Err(AppError::NotFound)));
}

#[test]
fn gateway_rejection_is_internal_error() {
    let data = || PaystackInitData { authorization_url: "https://pay/x".to_string(), reference: "g-1".to_string() };
    match gateway_outcome(false, data()) {
        Err(AppError::InternalServerError(m)) => assert_eq!(m, "Paystack rejected the transaction"),
        _ => panic!("expected internal error"),
    }
    assert_eq!(gateway_outcome(true, data()).unwrap().reference, "g-1");
}

#[test]
fn initiate_then_webhook_pays() {
    let mut store = store_with_student();
    let p = store.prepare_payment(1, 10).unwrap();
    let answer = PaystackInitData { authorization_url: "https://pay/x".to_string(), reference: p.reference.clone() };
    let out = store.record_payment(1, 10, Ok(answer)).unwrap();
    assert_eq!(out.authorization_url, "https://pay/x");
    let stored = store.students[0].payment_reference.clone().unwrap();
    assert_eq!(stored, p.reference);
    assert!(!stored.is_empty());
    let body = charge(&stored);
    let sig = sign(&body);
    assert_eq!(store.handle_webhook(SECRET, Some(sig.as_bytes()), &body), WebhookStatus::Acknowledged);
    assert_eq!(store.students[0].status, PaymentStatus::Paid);
}

#[test]
fn record_payment_keeps_gateway_reference_and_errors() {
    let mut store = store_with_student();
    let answer = PaystackInitData { authorization_url: "u".to_string(), reference: "gw-ref".to_string() };
    store.record_payment(1, 10, Ok(answer)).unwrap();
    assert_eq!(store.students[0].payment_reference.as_deref(), Some("gw-ref"));
    let r = store.record_payment(1, 10, Err(AppError::InternalServerError("down".to_string())));
    assert!(matches!(r, Err(AppError::InternalServerError(_))));
    assert_eq!(store.students[0].payment_reference.as_deref(), Some("gw-ref"));
    let answer = PaystackInitData { authorization_url: "u".to_string(), reference: "late".to_string() };
    assert_eq!(store.record_payment(1, 99, Ok(answer)).unwrap().reference, "late");
    assert_eq!(store.students[0].payment_reference.as_deref(), Some("gw-ref"));
}
