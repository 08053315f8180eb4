use dazno_umbrel::handlers::advanced_api::{
    validate_auto_execute, validate_schedule, validate_simulation, AutoExecuteRequest,
    ScheduleRequest, SimulationRequest,
};
use dazno_umbrel::middleware::validation::{
    apply_rule, check_security_threats, validate_input, InputValidationError, InputValidator,
    ValidationRule,
};

#[test]
fn test_valid_recommendation_id() {
    assert!(validate_input("recommendation_id", "rec_12345").is_ok());
    assert!(validate_input("recommendation_id", "recommendation-abc").is_ok());
}

#[test]
fn test_invalid_recommendation_id() {
    assert!(validate_input("recommendation_id", "").is_err());
    assert!(validate_input("recommendation_id", "rec with spaces").is_err());
    assert!(validate_input("recommendation_id", "rec@#$%").is_err());
}

#[test]
fn test_valid_pubkey() {
    let valid_pubkey = "02a1b2c3d4e5f6789abcdef123456789abcdef123456789abcdef123456789abcdef";
    assert!(validate_input("pubkey", valid_pubkey).is_ok());
}

#[test]
fn test_invalid_pubkey() {
    assert!(validate_input("pubkey", "short").is_err());
    assert!(validate_input(
        "pubkey",
        "02a1b2c3d4e5f6789abcdef123456789abcdef123456789abcdef123456789abcdefff"
    )
    .is_err()); // Too long
    assert!(validate_input(
        "pubkey",
        "invalid_characters_in_pubkey_!!!!!!!!!!!!!!!!!!!!!!!!!!!!!!!!"
    )
    .is_err());
}

#[test]
fn test_sql_injection_detection() {
    assert!(validate_input("message", "'; DROP TABLE users; --").is_err());
    assert!(validate_input("message", "SELECT * FROM passwords").is_err());
    assert!(validate_input("message", "UNION SELECT password FROM users").is_err());
}

#[test]
fn test_xss_detection() {
    assert!(validate_input("message", "<script>alert('xss')</script>").is_err());
    assert!(validate_input("message", "javascript:alert('xss')").is_err());
    assert!(validate_input("message", "<img onerror=alert('xss')>").is_err());
}

#[test]
fn test_channel_id_validation() {
    assert!(validate_input("channel_id", "123456789").is_ok());
    assert!(validate_input("channel_id", "not_numeric").is_err());
    assert!(validate_input("channel_id", "").is_err());
}

#[test]
fn each_error_has_its_input() {
    assert_eq!(validate_input("recommendation_id", ""), Err(InputValidationError::TooShort));
    assert_eq!(
        validate_input("recommendation_id", &"a".repeat(101)),
        Err(InputValidationError::TooLong)
    );
    assert_eq!(validate_input("recommendation_id", &"a".repeat(100)), Ok(()));
    assert_eq!(
        validate_input("recommendation_id", "rec with spaces"),
        Err(InputValidationError::InvalidFormat)
    );
    assert_eq!(
        validate_input("message", "price: 5 < 7"),
        Err(InputValidationError::InvalidCharacters)
    );
    assert_eq!(
        validate_input("message", "drop the fee"),
        Err(InputValidationError::SqlInjection)
    );
    assert_eq!(
        validate_input("message", "<SCRIPT>"),
        Err(InputValidationError::SqlInjection)
    );
    assert_eq!(validate_input("message", "OnLoad=x"), Err(InputValidationError::XssAttempt));
    assert_eq!(validate_input("message", "Hello, world! (ok?)"), Ok(()));
    assert_eq!(validate_input("message", "tab\tand\nline"), Ok(()));
    assert_eq!(validate_input("message", ""), Err(InputValidationError::InvalidCharacters));
    assert_eq!(validate_input("message", &"a".repeat(501)), Err(InputValidationError::TooLong));
}

#[test]
fn pubkey_bounds() {
    assert_eq!(validate_input("pubkey", &"a".repeat(65)), Err(InputValidationError::TooShort));
    assert_eq!(validate_input("pubkey", &"a".repeat(66)), Ok(()));
    assert_eq!(validate_input("pubkey", &"F".repeat(68)), Ok(()));
    assert_eq!(validate_input("pubkey", &"a".repeat(69)), Err(InputValidationError::TooLong));
    assert_eq!(validate_input("pubkey", &"g".repeat(66)), Err(InputValidationError::InvalidFormat));
}

#[test]
fn field_without_a_rule_is_only_searched_for_threats() {
    assert_eq!(validate_input("scheduled_time", "2024-01-01T10:00:00Z"), Ok(()));
    assert_eq!(validate_input("unknown", &"x".repeat(5000)), Ok(()));
    assert_eq!(validate_input("unknown", "a -- b"), Err(InputValidationError::SqlInjection));
    assert_eq!(validate_input("amount", &"1".repeat(1000)), Ok(()));
    assert_eq!(validate_input("amount", &"1".repeat(1001)), Err(InputValidationError::TooLong));
    assert_eq!(validate_input("fee_rate", "500"), Ok(()));
}

#[test]
fn length_is_counted_in_bytes() {
    let rule = ValidationRule {
        min_length: Some(2),
        max_length: Some(3),
        pattern: None,
        allowed_chars: None,
    };
    assert_eq!(apply_rule("\u{e9}", &rule), Ok(()));
    assert_eq!(apply_rule("e", &rule), Err(InputValidationError::TooShort));
    assert_eq!(apply_rule("\u{e9}\u{e9}", &rule), Err(InputValidationError::TooLong));
}

#[test]
fn pattern_that_is_no_expression_matches_nothing() {
    let rule = ValidationRule {
        min_length: None,
        max_length: None,
        pattern: Some("(".to_string()),
        allowed_chars: None,
    };
    assert_eq!(apply_rule("anything", &rule), Err(InputValidationError::InvalidFormat));
    let rule = ValidationRule {
        min_length: None,
        max_length: None,
        pattern: None,
        allowed_chars: Some("[".to_string()),
    };
    assert_eq!(apply_rule("anything", &rule), Err(InputValidationError::InvalidCharacters));
}

#[test]
fn default_rule_bounds_the_length() {
    let rule = ValidationRule::default();
    assert_eq!(rule.min_length, None);
    assert_eq!(rule.max_length, Some(1000));
    assert!(rule.pattern.is_none());
    assert!(rule.allowed_chars.is_none());
}

#[test]
fn validator_finds_the_rule_of_a_field() {
    let validator = InputValidator::default();
    assert_eq!(validator.rule_for("channel_id").unwrap().max_length, Some(50));
    assert_eq!(validator.rule_for("pubkey").unwrap().min_length, Some(66));
    assert_eq!(
        validator.rule_for("recommendation_id").unwrap().pattern.as_deref(),
        Some("^[a-zA-Z0-9_-]+$")
    );
    assert!(validator.rule_for("nothing").is_none());
    assert_eq!(validator.validate("channel_id", "42"), Ok(()));
    assert_eq!(validator.validate("channel_id", "4 2"), Err(InputValidationError::InvalidFormat));
}

#[test]
fn threats_are_found_in_any_case() {
    assert_eq!(check_security_threats("select"), Err(InputValidationError::SqlInjection));
    assert_eq!(check_security_threats("a /* b"), Err(InputValidationError::SqlInjection));
    // "javascript:" holds "script", which is looked for first
    assert_eq!(check_security_threats("JAVASCRIPT:x"), Err(InputValidationError::SqlInjection));
    assert_eq!(check_security_threats("<IMG ONERROR=x>"), Err(InputValidationError::XssAttempt));
    assert_eq!(check_security_threats("onclick=1"), Err(InputValidationError::XssAttempt));
    assert_eq!(check_security_threats("harmless"), Ok(()));
}

#[test]
fn requests_are_validated_field_by_field() {
    let request = AutoExecuteRequest {
        recommendation_id: "rec_001".to_string(),
        execution_mode: "immediate".to_string(),
    };
    assert_eq!(validate_auto_execute(&request), Ok(()));
    let request = AutoExecuteRequest {
        recommendation_id: "rec 001".to_string(),
        execution_mode: "<script".to_string(),
    };
    assert_eq!(validate_auto_execute(&request), Err(InputValidationError::InvalidFormat));
    let request = AutoExecuteRequest {
        recommendation_id: "rec_001".to_string(),
        execution_mode: "a;b".to_string(),
    };
    assert_eq!(validate_auto_execute(&request), Err(InputValidationError::InvalidCharacters));
    assert_eq!(
        validate_simulation(&SimulationRequest { recommendation_id: "".to_string() }),
        Err(InputValidationError::TooShort)
    );
    let request = ScheduleRequest {
        recommendation_id: "rec_001".to_string(),
        scheduled_time: "2024-06-01 12:00".to_string(),
    };
    assert_eq!(validate_schedule(&request), Ok(()));
    let request = ScheduleRequest {
        recommendation_id: "rec_001".to_string(),
        scheduled_time: "now; drop table".to_string(),
    };
    assert_eq!(validate_schedule(&request), Err(InputValidationError::SqlInjection));
}
