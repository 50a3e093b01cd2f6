use chrono::Utc;
use jwt_core::{Payload, TokenError};
use uuid::Uuid;

#[test]
fn rejects_invalid_jwt_bad_role() {
    let now = Utc::now().timestamp();
    let payload = Payload::new("Test auth".into(), now + 3600, "Test".into(), Uuid::new_v4(), "Invalid role name".into(), now, "test".into());

    assert!(payload.is_err());
}

#[test]
fn rejects_invalid_jwt_bad_username() {
    let now = Utc::now().timestamp();
    let payload = Payload::new("Some auth".into(), now + 3600, "Test".into(), Uuid::new_v4(), "admin".into(), now, "testing username this should be invalid, so something really long...".into());

    assert!(payload.is_err());
}

#[test]
fn rejects_invalid_jwt_bad_subject() {
    let now = Utc::now().timestamp();
    let payload = Payload::new("123456789012345678901234567890123456789012345678901234567890123456789012345678901234567890123456789012345678901234567890123456789012345678901234567890123456789012345678901234567890123456789012345678901".into(), now + 3600, "Test".into(), Uuid::new_v4(), "admin".into(), now, "test".into());

    assert!(payload.is_err());
}

#[test]
fn rejects_invalid_jwt_bad_issuer() {
    let now = Utc::now().timestamp();
    let payload = Payload::new("Some auth".into(), now + 3600, "Some bad issuer name with random numbers for padding 12345678901234567890123456789012345678901234567890".into(), Uuid::new_v4(), "admin".into(), now, "test".into());

    assert!(payload.is_err());
}

#[test]
fn rejects_invalid_jwt_expired() {
    let now = Utc::now().timestamp();
    let payload = Payload::new("Some auth".into(), now - 1, "Test".into(), Uuid::new_v4(), "admin".into(), now, "test".into());

    assert!(payload.is_err());
}

#[test]
fn rejects_invalid_jwt_not_yet_valid() {
    let now = Utc::now().timestamp();
    let payload = Payload::new("Some auth".into(), now + 3600, "Test".into(), Uuid::new_v4(), "admin".into(), now + 5, "testing".into());

    assert!(payload.is_err());
}

#[test]
fn cannot_set_invalid_issuer() {
    let mut payload = Payload::default();
    let payload = payload.set_issuer("INVALID Username".to_string());

    assert!(payload.is_err());
}

#[test]
fn cannot_set_invalid_subject() {
    let mut payload = Payload::default();
    let payload = payload.set_subject("Invalidl.''.'.subject".to_string());

    assert!(payload.is_err());
}

#[test]
fn new_payload_keeps_claims_and_starts_inactive() {
    let now = Utc::now().timestamp();
    let jti = Uuid::new_v4();
    let payload = Payload::new("Test auth".into(), now + 3600, "Test".into(), jti, "admin".into(), now, "test".into()).unwrap();
    assert_eq!(payload.subject(), "Test auth");
    assert_eq!(payload.expiration(), now + 3600);
    assert_eq!(payload.issuer(), "Test");
    assert_eq!(payload.jti(), jti);
    assert_eq!(payload.role, "admin");
    assert_eq!(payload.not_valid_before(), now);
    assert_eq!(payload.username(), "test");
    assert!(!payload.is_active());
}

#[test]
fn bad_claims_are_reported_as_invalid_values_in_order() {
    let now = Utc::now().timestamp();
    // user name is checked before the role
    let r = Payload::check_bounds_of_data("bad name", "bad role", "subject", "issuer", now, now + 10);
    match r {
        Err(TokenError::InvalidValue(value, cause)) => {
            assert_eq!(value, "bad name");
            assert_eq!(cause, "Invalid value provided");
        }
        other => panic!("unexpected outcome {:?}", other),
    }
    let r = Payload::check_bounds_of_data("name", "bad role", "subject", "issuer", now, now + 10);
    match r {
        Err(TokenError::InvalidValue(value, _)) => assert_eq!(value, "bad role"),
        other => panic!("unexpected outcome {:?}", other),
    }
}

#[test]
fn window_is_checked_against_the_given_time() {
    assert!(Payload::check_bounds_of_data_at("name", "role", "a subject", "issuer", 100, 200, 150).is_ok());
    assert!(Payload::check_bounds_of_data_at("name", "role", "a subject", "issuer", 100, 200, 100).is_ok());
    assert!(Payload::check_bounds_of_data_at("name", "role", "a subject", "issuer", 100, 200, 200).is_ok());
    assert!(matches!(Payload::check_bounds_of_data_at("name", "role", "a subject", "issuer", 100, 200, 201), Err(TokenError::ExpiredToken)));
    assert!(matches!(Payload::check_bounds_of_data_at("name", "role", "a subject", "issuer", 100, 200, 99), Err(TokenError::NotYetValidToken)));
    // expiration is checked before the start of validity
    assert!(matches!(Payload::check_bounds_of_data_at("name", "role", "a subject", "issuer", 300, 200, 250), Err(TokenError::ExpiredToken)));
}

#[test]
fn pattern_lengths_are_enforced() {
    let fifty = "a".repeat(50);
    let fifty_one = "a".repeat(51);
    assert!(Payload::check_bounds_of_data_at(&fifty, "role", "s", "i", 0, 10, 5).is_ok());
    assert!(Payload::check_bounds_of_data_at(&fifty_one, "role", "s", "i", 0, 10, 5).is_err());
    assert!(Payload::check_bounds_of_data_at("n", "role", "s", "i", 0, 10, 5).is_ok());
    assert!(Payload::check_bounds_of_data_at("", "role", "s", "i", 0, 10, 5).is_err());
    assert!(Payload::check_bounds_of_data_at("n", &"r".repeat(15), "s", "i", 0, 10, 5).is_ok());
    assert!(Payload::check_bounds_of_data_at("n", &"r".repeat(16), "s", "i", 0, 10, 5).is_err());
    assert!(Payload::check_bounds_of_data_at("n", "r", &"s ".repeat(100), "i", 0, 10, 5).is_ok());
    assert!(Payload::check_bounds_of_data_at("n", "r", &"s".repeat(201), "i", 0, 10, 5).is_err());
    assert!(Payload::check_bounds_of_data_at("n", "r", "s", &"i".repeat(100), 0, 10, 5).is_ok());
    assert!(Payload::check_bounds_of_data_at("n", "r", "s", &"i".repeat(101), 0, 10, 5).is_err());
}

#[test]
fn validate_input_answers_true_or_an_error() {
    assert!(matches!(Payload::validate_input("abc", "^[a-z]+$"), Ok(true)));
    assert!(matches!(Payload::validate_input("ABC", "^[a-z]+$"), Err(TokenError::InvalidValue(_, _))));
    assert!(matches!(Payload::validate_input("abc", "^[a-z+$"), Err(TokenError::RegexError(_))));
}

#[test]
fn setters_replace_only_their_field() {
    let mut payload = Payload::default();
    payload.set_username("alice".to_string()).unwrap();
    payload.set_subject("a subject".to_string()).unwrap();
    payload.set_issuer("issuer1".to_string()).unwrap();
    payload.set_is_active(true);
    let id = Uuid::new_v4();
    payload.set_jti(id);
    assert_eq!(payload.username(), "alice");
    assert_eq!(payload.subject(), "a subject");
    assert_eq!(payload.issuer(), "issuer1");
    assert!(payload.is_active());
    assert_eq!(payload.jti(), id);
    assert_eq!(payload.expiration(), 0);
}

#[test]
fn failed_setters_leave_the_payload_unchanged() {
    let mut payload = Payload::default();
    payload.set_username("bob".to_string()).unwrap();
    assert!(payload.set_username("not valid!".to_string()).is_err());
    assert_eq!(payload.username(), "bob");
    assert!(payload.set_expiration_at(5, 10).is_err());
    assert_eq!(payload.expiration(), 0);
    assert!(payload.set_expiration_at(10, 10).is_ok());
    assert_eq!(payload.expiration(), 10);
    assert!(matches!(payload.set_not_valid_before_at(11, 10), Err(TokenError::NotYetValidToken)));
    assert_eq!(payload.not_valid_before(), 0);
    assert!(payload.set_not_valid_before_at(10, 10).is_ok());
    assert_eq!(payload.not_valid_before(), 10);
}

#[test]
fn clock_setters_follow_the_clock() {
    let now = Utc::now().timestamp();
    let mut payload = Payload::default();
    assert!(matches!(payload.set_expiration(now - 100), Err(TokenError::ExpiredToken)));
    assert!(payload.set_expiration(now + 100).is_ok());
    assert_eq!(payload.expiration(), now + 100);
    assert!(matches!(payload.set_not_valid_before(now + 100), Err(TokenError::NotYetValidToken)));
    assert!(payload.set_not_valid_before(now - 100).is_ok());
    assert_eq!(payload.not_valid_before(), now - 100);
}

#[test]
fn default_payload_is_empty() {
    let payload = Payload::default();
    assert_eq!(payload.sub, "");
    assert_eq!(payload.exp, 0);
    assert_eq!(payload.iss, "");
    assert_eq!(payload.nbf, 0);
    assert!(payload.jti.is_nil());
    assert_eq!(payload.role, "");
    assert!(!payload.is_active);
    assert_eq!(payload.username, "");
}

#[test]
fn new_at_decides_by_the_given_time() {
    let jti = Uuid::new_v4();
    let made = Payload::new_at("Test auth".into(), 200, "Test".into(), jti, "admin".into(), 100, "test".into(), 150).unwrap();
    assert_eq!(made.expiration(), 200);
    assert_eq!(made.not_valid_before(), 100);
    assert!(!made.is_active());
    assert!(matches!(
        Payload::new_at("Test auth".into(), 200, "Test".into(), jti, "admin".into(), 100, "test".into(), 201),
        Err(TokenError::ExpiredToken)
    ));
    assert!(matches!(
        Payload::new_at("Test auth".into(), 200, "Test".into(), jti, "admin".into(), 100, "test".into(), 99),
        Err(TokenError::NotYetValidToken)
    ));
    match Payload::new_at("Test auth".into(), 200, "Test".into(), jti, "Invalid role name".into(), 100, "test".into(), 150) {
        Err(TokenError::InvalidValue(value, _)) => assert_eq!(value, "Invalid role name"),
        other => panic!("unexpected outcome {:?}", other),
    }
}

#[test]
fn subjects_may_hold_unicode_white_space() {
    assert!(Payload::check_bounds_of_data_at("n", "r", "a\tb\u{3000}c\u{a0}", "i", 0, 10, 5).is_ok());
    assert!(Payload::check_bounds_of_data_at("n", "r", "a\u{200b}b", "i", 0, 10, 5).is_err());
    assert!(Payload::check_bounds_of_data_at("n", "r", "a\u{e9}b", "i", 0, 10, 5).is_err());
    assert!(Payload::check_bounds_of_data_at("n\n", "r", "s", "i", 0, 10, 5).is_err());
}

#[test]
fn bad_pattern_reports_the_regex_error_text() {
    let expected = regex::Regex::new("^[a-z+$").unwrap_err().to_string();
    match Payload::validate_input("abc", "^[a-z+$") {
        Err(TokenError::RegexError(text)) => assert_eq!(text, expected),
        other => panic!("unexpected outcome {:?}", other),
    }
}

#[test]
fn clock_setters_accept_the_far_ends() {
    let mut payload = Payload::default();
    assert!(payload.set_expiration(i64::MAX).is_ok());
    assert_eq!(payload.expiration(), i64::MAX);
    assert!(payload.set_not_valid_before(i64::MIN).is_ok());
    assert_eq!(payload.not_valid_before(), i64::MIN);
}
