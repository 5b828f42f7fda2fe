use school_payments::auth::{
    bearer_token, claims_for, identity_from_claims, identity_from_token, token_expiry, Claims,
};
use school_payments::errors::AppError;
use school_payments::logger::{AppLogger, LogLevel};

fn claims(id: &str) -> Claims {
    Claims { school_id: id.to_string(), username: "alpha".to_string(), exp: 0 }
}

#[test]
fn bearer_header_yields_token() {
    assert_eq!(bearer_token(Some("Bearer abc.def")).unwrap(), "abc.def");
    assert_eq!(bearer_token(Some("Bearer ")).unwrap(), "");
}

#[test]
fn missing_or_other_scheme_is_unauthorized() {
    for h in [None, Some("Basic abc"), Some("Bearer"), Some("bearer abc")] {
        match bearer_token(h) {
            Err(AppError::Unauthorized(m)) => assert_eq!(m, "Missing authorization header"),
            other => panic!("expected unauthorized, got {:?}", other),
        }
    }
}

#[test]
fn claims_with_identifier_give_identity() {
    let a = identity_from_claims(claims("67e55044-10b1-426f-9247-bb680e5fe0c8")).unwrap();
    assert_eq!(a.school_id, 0x67e5504410b1426f9247bb680e5fe0c8);
    assert_eq!(a.username, "alpha");
}

#[test]
fn claims_with_bad_identifier_are_unauthorized() {
    match identity_from_claims(claims("not-a-uuid")) {
        Err(AppError::Unauthorized(m)) => assert_eq!(m, "Invalid school id in token"),
        _ => panic!("expected unauthorized"),
    }
}

#[test]
fn failed_verification_is_uniform() {
    let r = identity_from_token(Err(AppError::Unauthorized("expired".to_string())));
    match r {
        Err(AppError::Unauthorized(m)) => assert_eq!(m, "Invalid or expired token"),
        _ => panic!("expected unauthorized"),
    }
    let ok = identity_from_token(Ok(claims("00000000-0000-0000-0000-000000000005"))).unwrap();
    assert_eq!(ok.school_id, 5);
}

#[test]
fn expiry_is_a_day_later() {
    assert_eq!(token_expiry(1_700_000_000).unwrap(), 1_700_086_400);
    assert_eq!(token_expiry(-86_400).unwrap(), 0);
    assert!(matches!(token_expiry(-86_401), Err(AppError::InternalServerError(_))));
}

#[test]
fn claims_for_writes_hyphenated_identifier() {
    let c = claims_for(1, "alpha", 100).unwrap();
    assert_eq!(c.school_id, "00000000-0000-0000-0000-000000000001");
    assert_eq!(c.username, "alpha");
    assert_eq!(c.exp, 86_500);
}

#[test]
fn error_messages() {
    assert_eq!(AppError::NotFound.message(), "Resource not found");
    assert_eq!(AppError::Conflict("x".to_string()).message(), "Conflict: x");
    assert_eq!(AppError::Unauthorized("y".to_string()).message(), "Unauthorized: y");
    let e = AppError::UnProcessableEntity { field: "f".to_string(), message: "m".to_string() };
    assert_eq!(e.message(), "Invalid Input, cannot be processed: f - m");
    assert_eq!(AppError::InternalServerError("z".to_string()).message(), "Internal Server Error: z");
}

#[test]
fn log_records_carry_level_and_text() {
    let i = AppLogger::info("started");
    assert_eq!(i.level, LogLevel::Info);
    assert_eq!(i.message, "started");
    let e = AppLogger::error("failed");
    assert_eq!(e.level, LogLevel::Error);
    assert_eq!(e.message, "failed");
}
