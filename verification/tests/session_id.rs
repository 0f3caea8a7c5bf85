use polyproto::certs::SessionId;
use polyproto::constraints::Constrained;
use polyproto::errors::ConstraintError;

#[test]
fn zero_long_session_id_fails() {
    assert!(SessionId::new_validated(String::from("")).is_err())
}

#[test]
fn thirtytwo_length_session_id_is_ok() {
    assert!(SessionId::new_validated(String::from("11111111111111111111111111222222")).is_ok())
}

#[test]
fn thirtythree_length_session_id_fails() {
    assert!(SessionId::new_validated(String::from("111111111111111111111111112222223")).is_err())
}

#[test]
fn one_byte_session_id_is_ok() {
    let id = SessionId::new_validated(String::from("a")).unwrap();
    assert_eq!(id.as_str(), "a");
    assert_eq!(id.len(), 1);
    assert!(id.validate().is_ok());
}

#[test]
fn session_id_keeps_its_text() {
    let id = SessionId::new_validated(String::from("h3g2jt4dhfgj8hjs")).unwrap();
    assert_eq!(id.as_str(), "h3g2jt4dhfgj8hjs");
    assert_eq!(id.len(), 16);
    assert_eq!(id.clone(), id);
}

#[test]
fn empty_session_id_reports_bounds_and_length() {
    let err = SessionId::new_validated(String::new()).unwrap_err();
    assert_eq!(
        err,
        ConstraintError::OutOfBounds {
            lower: 1,
            upper: 32,
            actual: "0".to_string(),
            reason: Some("SessionId too long".to_string()),
        }
    );
}

#[test]
fn long_session_id_reports_bounds_and_length() {
    let err = SessionId::new_validated("x".repeat(33)).unwrap_err();
    assert_eq!(
        err,
        ConstraintError::OutOfBounds {
            lower: 1,
            upper: 32,
            actual: "33".to_string(),
            reason: Some("SessionId too long".to_string()),
        }
    );
    let err = SessionId::new_validated("x".repeat(1205)).unwrap_err();
    assert_eq!(
        err,
        ConstraintError::OutOfBounds {
            lower: 1,
            upper: 32,
            actual: "1205".to_string(),
            reason: Some("SessionId too long".to_string()),
        }
    );
}

#[test]
fn session_id_length_is_counted_in_bytes() {
    // Sixteen letters of two bytes each are 32 bytes; one more byte is too much.
    assert!(SessionId::new_validated("é".repeat(16)).is_ok());
    let err = SessionId::new_validated(format!("{}a", "é".repeat(16))).unwrap_err();
    assert_eq!(
        err,
        ConstraintError::OutOfBounds {
            lower: 1,
            upper: 32,
            actual: "33".to_string(),
            reason: Some("SessionId too long".to_string()),
        }
    );
}

#[test]
fn session_ids_compare_as_their_text() {
    let a = SessionId::new_validated(String::from("abc")).unwrap();
    let b = SessionId::new_validated(String::from("abd")).unwrap();
    let a_again = SessionId::new_validated(String::from("abc")).unwrap();
    assert_eq!(a, a_again);
    assert_ne!(a, b);
    assert!(a < b);
}
