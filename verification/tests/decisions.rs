use dazno_umbrel::auth::{
    change_obstacle, login_outcome, AuthServiceError, PasswordChange, Timestamp, User,
};
use dazno_umbrel::middleware::auth::{check_signature, AuthError};
use dazno_umbrel::middleware::validation::{check_length, InputValidationError};

fn user() -> User {
    User {
        id: 9,
        username: "operator".to_string(),
        password_hash: "h".to_string(),
        created_at: Timestamp { secs: 0, nanos: 0 },
        last_login: None,
        is_admin: false,
        must_change_password: false,
    }
}

#[test]
fn signature_is_judged_against_the_expected_tag() {
    assert_eq!(check_signature(b"0a0b", &[10, 11]), Ok(()));
    assert_eq!(check_signature(b"0A0B", &[10, 11]), Ok(()));
    assert_eq!(check_signature(b"", &[]), Ok(()));
    assert_eq!(check_signature(b"0a0c", &[10, 11]), Err(AuthError::InvalidToken));
    assert_eq!(check_signature(b"0a", &[10, 11]), Err(AuthError::InvalidToken));
    assert_eq!(check_signature(b"0a0b0c", &[10, 11]), Err(AuthError::InvalidToken));
    assert_eq!(check_signature(b"", &[10]), Err(AuthError::InvalidToken));
    assert_eq!(check_signature(b"0a0", &[10, 11]), Err(AuthError::InvalidFormat));
    assert_eq!(check_signature(b"0g", &[10]), Err(AuthError::InvalidFormat));
    assert_eq!(check_signature(b" 0a", &[10]), Err(AuthError::InvalidFormat));
    assert_eq!(check_signature(b"ff00", &[255, 0]), Ok(()));
}

#[test]
fn login_follows_the_check_of_the_password() {
    let found = login_outcome(user(), Ok(true)).unwrap().unwrap();
    assert_eq!(found.id, 9);
    assert_eq!(found.username, "operator");
    assert!(login_outcome(user(), Ok(false)).unwrap().is_none());
    assert_eq!(
        login_outcome(user(), Err(AuthServiceError::MalformedHash)).err().unwrap(),
        AuthServiceError::MalformedHash
    );
}

#[test]
fn password_change_is_refused_before_the_policy_is_asked() {
    assert!(change_obstacle(Ok(true), true).is_none());
    assert!(matches!(
        change_obstacle(Ok(true), false),
        Some(Err(AuthServiceError::WeakPassword))
    ));
    assert!(matches!(change_obstacle(Ok(false), true), Some(Ok(PasswordChange::Refused))));
    assert!(matches!(change_obstacle(Ok(false), false), Some(Ok(PasswordChange::Refused))));
    assert!(matches!(
        change_obstacle(Err(AuthServiceError::MalformedHash), false),
        Some(Err(AuthServiceError::MalformedHash))
    ));
}

#[test]
fn length_is_held_to_both_bounds() {
    assert_eq!(check_length(0, None, None), Ok(()));
    assert_eq!(check_length(5, Some(5), Some(5)), Ok(()));
    assert_eq!(check_length(4, Some(5), Some(9)), Err(InputValidationError::TooShort));
    assert_eq!(check_length(10, Some(5), Some(9)), Err(InputValidationError::TooLong));
    // bounds that contradict each other: the least length is checked first
    assert_eq!(check_length(5, Some(9), Some(3)), Err(InputValidationError::TooShort));
    assert_eq!(check_length(usize::MAX, None, Some(usize::MAX)), Ok(()));
    assert_eq!(check_length(1, None, Some(0)), Err(InputValidationError::TooLong));
}
