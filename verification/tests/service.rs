use otp_service::otp::generate_totp;
use otp_service::response::{build_response, ErrorResponse};
use otp_service::service::{generate_otp, health_check, verify_otp, DEFAULT_INTERVAL};

const SECRET: &[u8] = b"s3cr3t";

#[test]
fn issue_uses_default_interval() {
    let res = generate_otp(&SECRET.to_vec(), None, None, Some(1700000000)).unwrap();
    assert_eq!(res.interval, DEFAULT_INTERVAL);
    assert_eq!(res.id, Vec::<u8>::new());
    let (code, _) = generate_totp(&SECRET.to_vec(), 60, 1700000000);
    assert_eq!(res.code, code);
}

#[test]
fn issue_echoes_interval_and_id() {
    let res = generate_otp(
        &SECRET.to_vec(),
        Some(30),
        Some(b"alice".to_vec()),
        Some(1700000000),
    )
    .unwrap();
    assert_eq!(res.interval, 30);
    assert_eq!(res.id, b"alice".to_vec());
    let (code, _) = generate_totp(&b"s3cr3talice".to_vec(), 30, 1700000000);
    assert_eq!(res.code, code);
}

#[test]
fn issue_reports_clock_failure() {
    let r = generate_otp(&SECRET.to_vec(), Some(60), None, None);
    assert!(matches!(r, Err(ErrorResponse::ServerError)));
}

#[test]
fn issue_rejects_zero_interval() {
    let r = generate_otp(&SECRET.to_vec(), Some(0), None, Some(1700000000));
    assert!(matches!(r, Err(ErrorResponse::BadRequest { .. })));
}

#[test]
fn verify_round_trip_through_service() {
    let res = generate_otp(&SECRET.to_vec(), Some(60), None, Some(1700000000)).unwrap();
    let r = verify_otp(&SECRET.to_vec(), res.code, Some(60), None, Some(1700000000));
    assert!(r.is_ok());
}

#[test]
fn verify_round_trip_with_id() {
    let id = b"alice".to_vec();
    let res =
        generate_otp(&SECRET.to_vec(), Some(60), Some(id.clone()), Some(1700000000)).unwrap();
    let r = verify_otp(&SECRET.to_vec(), res.code, Some(60), Some(id), Some(1700000000));
    assert!(r.is_ok());
}

#[test]
fn verify_with_wrong_id_fails_when_codes_differ() {
    let res = generate_otp(
        &SECRET.to_vec(),
        Some(60),
        Some(b"alice".to_vec()),
        Some(1700000000),
    )
    .unwrap();
    let other = generate_otp(
        &SECRET.to_vec(),
        Some(60),
        Some(b"bob".to_vec()),
        Some(1700000000),
    )
    .unwrap();
    let r = verify_otp(
        &SECRET.to_vec(),
        res.code,
        Some(60),
        Some(b"bob".to_vec()),
        Some(1700000000),
    );
    assert_eq!(r.is_ok(), res.code == other.code);
}

#[test]
fn verify_rejects_mismatch_as_unauthorized() {
    let res = generate_otp(&SECRET.to_vec(), Some(60), None, Some(1700000000)).unwrap();
    let wrong = (res.code + 1) % 1000000;
    let r = verify_otp(&SECRET.to_vec(), wrong, Some(60), None, Some(1700000000));
    match r {
        Err(ErrorResponse::Unauthorized { message }) => {
            assert_eq!(message, "Your code is incorrect or has expired.");
        }
        _ => panic!("expected an unauthorized rejection"),
    }
}

#[test]
fn verify_reports_clock_failure() {
    let r = verify_otp(&SECRET.to_vec(), 123456, Some(60), None, None);
    assert!(matches!(r, Err(ErrorResponse::ServerError)));
}

#[test]
fn verify_rejects_zero_interval() {
    let r = verify_otp(&SECRET.to_vec(), 123456, Some(0), None, Some(1700000000));
    assert!(matches!(r, Err(ErrorResponse::BadRequest { .. })));
}

#[test]
fn status_codes_per_kind() {
    let bad = ErrorResponse::BadRequest { message: "bad".to_string() };
    let unauthorized = ErrorResponse::Unauthorized { message: "no".to_string() };
    assert_eq!(bad.status_code(), 400);
    assert_eq!(unauthorized.status_code(), 401);
    assert_eq!(ErrorResponse::ServerError.status_code(), 500);
}

#[test]
fn error_response_carries_message_and_status() {
    let bad = ErrorResponse::BadRequest { message: "malformed body".to_string() };
    let (status, body) = bad.error_response();
    assert_eq!(status, 400);
    assert_eq!(body.message, "malformed body");

    let (status, body) = ErrorResponse::ServerError.error_response();
    assert_eq!(status, 500);
    assert_eq!(body.message, "Internal server error");
}

#[test]
fn build_response_pairs_status_and_message() {
    let unauthorized = ErrorResponse::Unauthorized { message: "ignored".to_string() };
    let (status, body) = build_response(&unauthorized, "shown".to_string());
    assert_eq!(status, 401);
    assert_eq!(body.message, "shown");
}

#[test]
fn health_check_always_succeeds() {
    assert_eq!(health_check(), 200);
}
