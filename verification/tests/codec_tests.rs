use auth_core::errors::ErrorMessage;
use auth_core::token::{create_token, create_token_at, decode_token, verify_token_at};

const SECRET: &[u8] = b"s3cr3t";

#[test]
fn round_trip_returns_issued_claim() {
    let token = create_token_at("u1", SECRET, 900, 1000).unwrap();
    let claims = verify_token_at(&token, SECRET, 1000).unwrap();
    assert_eq!(claims.sub, "u1");
    assert_eq!(claims.iat, 1000);
    assert_eq!(claims.exp, 1900);
}

#[test]
fn round_trip_any_time_before_expiry() {
    let token = create_token_at("user-42", SECRET, 900, 1000).unwrap();
    let claims = verify_token_at(&token, SECRET, 1899).unwrap();
    assert_eq!(claims.sub, "user-42");
}

#[test]
fn wrong_secret_is_invalid_token() {
    let token = create_token_at("u1", b"secret-number1", 900, 1000).unwrap();
    let r = verify_token_at(&token, b"secret-number2", 1000);
    assert_eq!(r.unwrap_err(), ErrorMessage::InvalidToken);
}

#[test]
fn wrong_secret_of_another_length_is_invalid_token() {
    let token = create_token_at("u1", b"first-secret", 900, 1000).unwrap();
    let r = verify_token_at(&token, b"second-secret", 1000);
    assert_eq!(r.unwrap_err(), ErrorMessage::InvalidToken);
}

#[test]
fn expiry_is_inclusive_at_the_boundary() {
    let token = create_token_at("u1", SECRET, 900, 1000).unwrap();
    let claims = verify_token_at(&token, SECRET, 1900).unwrap();
    assert_eq!(claims.sub, "u1");
}

#[test]
fn one_second_past_expiry_is_invalid_token() {
    let token = create_token_at("u1", SECRET, 900, 1000).unwrap();
    let r = verify_token_at(&token, SECRET, 1901);
    assert_eq!(r.unwrap_err(), ErrorMessage::InvalidToken);
}

#[test]
fn empty_subject_is_rejected() {
    let r = create_token_at("", SECRET, 900, 1000);
    assert_eq!(r.unwrap_err(), ErrorMessage::EmptySubject);
}

#[test]
fn empty_subject_is_rejected_with_live_clock() {
    let r = create_token("", SECRET, 900);
    assert_eq!(r.unwrap_err(), ErrorMessage::EmptySubject);
}

#[test]
fn garbage_token_is_invalid_token() {
    let r = verify_token_at("not-a-token", SECRET, 1000);
    assert_eq!(r.unwrap_err(), ErrorMessage::InvalidToken);
}

#[test]
fn tampered_token_is_invalid_token() {
    let token = create_token_at("u1", SECRET, 900, 1000).unwrap();
    let mut tampered = token.clone();
    let last = tampered.pop().unwrap();
    tampered.push(if last == 'A' { 'B' } else { 'A' });
    let r = verify_token_at(&tampered, SECRET, 1000);
    assert_eq!(r.unwrap_err(), ErrorMessage::InvalidToken);
}

#[test]
fn token_is_three_dot_separated_parts() {
    let token = create_token_at("u1", SECRET, 900, 1000).unwrap();
    assert_eq!(token.split('.').count(), 3);
}

#[test]
fn live_clock_round_trip_through_decode_token() {
    let token = create_token("u1", SECRET, 900).unwrap();
    let sub = decode_token(&token, SECRET).unwrap();
    assert_eq!(sub, "u1");
}

#[test]
fn decode_token_maps_failure_to_401_invalid_token() {
    let e = decode_token("garbage", SECRET).unwrap_err();
    assert_eq!(e.status, 401);
    assert_eq!(e.message, "Invalid token");
}

#[test]
fn overflowing_expiry_is_a_server_error() {
    let r = create_token_at("u1", SECRET, u64::MAX, 2);
    assert_eq!(r.unwrap_err(), ErrorMessage::ServerError);
}

#[test]
fn non_empty_subject_is_owed_a_token() {
    let token = create_token_at("u1", SECRET, 0, 0).unwrap();
    assert!(!token.is_empty());
}

#[test]
fn enormous_lifetime_still_issues_with_live_clock() {
    let token = create_token("u1", SECRET, u64::MAX).unwrap();
    let sub = decode_token(&token, SECRET).unwrap();
    assert_eq!(sub, "u1");
}
