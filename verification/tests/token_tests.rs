use auth_session::token::issue;
use auth_session::token::validate;
use auth_session::token::TokenError;
use auth_session::token::TOKEN_EXPIRATION_TIMEOUT_SECS;

#[test]
fn round_trip_immediately_after_issue() {
    let tr = issue("alice", 1_000);
    assert_eq!(tr.claims.sub, "alice");
    assert_eq!(tr.claims.exp, 1_000 + TOKEN_EXPIRATION_TIMEOUT_SECS);
    let v = validate(tr.token.as_str(), 1_000).unwrap();
    assert_eq!(v.sub, "alice");
    assert_eq!(v.exp, tr.claims.exp);
}

#[test]
fn round_trip_keeps_unusual_subjects() {
    let tr = issue("An na \"quoted\"", 7);
    let v = validate(tr.token.as_str(), 7).unwrap();
    assert_eq!(v.sub, "An na \"quoted\"");
}

#[test]
fn expired_token_fails_despite_good_signature() {
    let tr = issue("bob", 5_000);
    let exp = tr.claims.exp;
    assert!(validate(tr.token.as_str(), exp - 1).is_ok());
    assert!(validate(tr.token.as_str(), exp).is_err());
    assert!(validate(tr.token.as_str(), exp + 1_000).is_err());
}

#[test]
fn corrupted_token_fails() {
    let tr = issue("carol", 100);
    let mut tampered = tr.token.clone();
    tampered.push('x');
    assert_eq!(validate(tampered.as_str(), 100).unwrap_err(), TokenError::Invalid);
    assert_eq!(validate("garbage", 100).unwrap_err(), TokenError::Invalid);
    assert_eq!(validate("", 100).unwrap_err(), TokenError::Invalid);
}

#[test]
fn issue_near_the_end_of_time_saturates() {
    let tr = issue("zed", u64::MAX);
    assert_eq!(tr.claims.exp, u64::MAX);
    assert!(validate(tr.token.as_str(), u64::MAX - 1).is_ok());
    assert!(validate(tr.token.as_str(), u64::MAX).is_err());
}

#[test]
fn different_expiries_give_different_tokens() {
    let t1 = issue("alice", 1_000).token;
    let t2 = issue("alice", 1_001).token;
    assert_ne!(t1, t2);
}

#[test]
fn same_instant_same_subject_is_deterministic() {
    let t1 = issue("dave", 42).token;
    let t2 = issue("dave", 42).token;
    assert_eq!(t1, t2);
}
