use base64::Engine;
use dazno_umbrel::encoding::{format_u64, parse_u64};
use dazno_umbrel::middleware::auth::{
    generate_auth_token, generate_auth_token_at, validate_payload, validate_token,
    validate_token_at, validate_token_bytes_at, AuthError, TokenConfig,
};
use hmac::Mac;

const SECRET: &[u8] = b"dazno-secret-key-should-be-in-env";

fn config() -> TokenConfig {
    TokenConfig { secret_key: SECRET.to_vec(), ttl_seconds: 3600 }
}

fn signature_of(secret: &[u8], stamp: &str) -> String {
    let mut mac = hmac::Hmac::<sha2::Sha256>::new_from_slice(secret).unwrap();
    mac.update(stamp.as_bytes());
    hex::encode(mac.finalize().into_bytes())
}

fn token_of(payload: &str) -> String {
    base64::engine::general_purpose::STANDARD.encode(payload)
}

fn signed_token(secret: &[u8], stamp: &str) -> String {
    token_of(&format!("{}:{}", stamp, signature_of(secret, stamp)))
}

#[test]
fn test_token_generation_and_validation() {
    let token = generate_auth_token(&config());
    assert!(validate_token(&config(), &token).is_ok());
}

#[test]
fn test_invalid_token_format() {
    assert!(matches!(
        validate_token(&config(), "invalid"),
        Err(AuthError::InvalidFormat)
    ));
    assert!(matches!(validate_token(&config(), ""), Err(AuthError::InvalidFormat)));
}

#[test]
fn test_expired_token() {
    let old_timestamp = 1000000;
    let mut mac = hmac::Hmac::<sha2::Sha256>::new_from_slice(SECRET).unwrap();
    mac.update(old_timestamp.to_string().as_bytes());
    let signature = hex::encode(mac.finalize().into_bytes());

    let token_data = format!("{}:{}", old_timestamp, signature);
    let token = base64::engine::general_purpose::STANDARD.encode(token_data);

    assert!(matches!(
        validate_token(&config(), &token),
        Err(AuthError::ExpiredToken)
    ));
}

#[test]
fn issued_token_is_the_encoding_of_time_and_signature() {
    let token = generate_auth_token_at(&config(), 1_700_000_000);
    assert_eq!(token, signed_token(SECRET, "1700000000"));
    let payload = base64::engine::general_purpose::STANDARD.decode(&token).unwrap();
    let text = String::from_utf8(payload).unwrap();
    let parts: Vec<&str> = text.split(':').collect();
    assert_eq!(parts.len(), 2);
    assert_eq!(parts[0], "1700000000");
    assert_eq!(parts[1].len(), 64);
    assert!(parts[1].bytes().all(|b| b.is_ascii_digit() || (b'a'..=b'f').contains(&b)));
}

#[test]
fn known_signature() {
    // HMAC-SHA256 of "what do ya want for nothing?" under "Jefe"
    let config = TokenConfig { secret_key: b"Jefe".to_vec(), ttl_seconds: 10 };
    let payload =
        "1:5bdcc146bf60754e6a042426089575c75a003f089d2739839dec58b964ec3843".to_string();
    // that tag is not the tag of "1", so the payload is refused for its signature
    assert_eq!(validate_payload(&config, payload.as_bytes(), 1), Err(AuthError::InvalidToken));
    assert_eq!(
        signature_of(b"Jefe", "what do ya want for nothing?"),
        "5bdcc146bf60754e6a042426089575c75a003f089d2739839dec58b964ec3843"
    );
    let right = format!("1:{}", signature_of(b"Jefe", "1"));
    assert_eq!(validate_payload(&config, right.as_bytes(), 1), Ok(()));
}

#[test]
fn token_lives_for_its_time_to_live() {
    let issued_at = 1_700_000_000u64;
    let ttl = 3600u64;
    let token = generate_auth_token_at(&config(), issued_at);
    assert_eq!(validate_token_at(&config(), &token, issued_at), Ok(()));
    assert_eq!(validate_token_at(&config(), &token, issued_at + ttl - 1), Ok(()));
    assert_eq!(validate_token_at(&config(), &token, issued_at + ttl), Ok(()));
    assert_eq!(
        validate_token_at(&config(), &token, issued_at + ttl + 1),
        Err(AuthError::ExpiredToken)
    );
    assert_eq!(validate_token_at(&config(), &token, u64::MAX), Err(AuthError::ExpiredToken));
}

#[test]
fn token_from_the_future_is_accepted() {
    let token = generate_auth_token_at(&config(), 2_000_000_000);
    assert_eq!(validate_token_at(&config(), &token, 1_000_000_000), Ok(()));
    assert_eq!(validate_token_at(&config(), &token, 0), Ok(()));
}

#[test]
fn zero_time_to_live_accepts_only_the_moment_of_issue() {
    let config = TokenConfig { secret_key: SECRET.to_vec(), ttl_seconds: 0 };
    let token = generate_auth_token_at(&config, 500);
    assert_eq!(validate_token_at(&config, &token, 500), Ok(()));
    assert_eq!(validate_token_at(&config, &token, 501), Err(AuthError::ExpiredToken));
}

#[test]
fn tampered_signature_is_rejected() {
    let stamp = "1700000000";
    let signature = signature_of(SECRET, stamp);
    for at in 0..signature.len() {
        let mut bytes = signature.clone().into_bytes();
        bytes[at] = if bytes[at] == b'0' { b'1' } else { b'0' };
        let tampered = String::from_utf8(bytes).unwrap();
        let token = token_of(&format!("{}:{}", stamp, tampered));
        assert_eq!(
            validate_token_at(&config(), &token, 1_700_000_000),
            Err(AuthError::InvalidToken),
            "digit {} tampered",
            at
        );
    }
}

#[test]
fn upper_case_signature_is_the_same_signature() {
    let stamp = "1700000000";
    let signature = signature_of(SECRET, stamp).to_uppercase();
    let token = token_of(&format!("{}:{}", stamp, signature));
    assert_eq!(validate_token_at(&config(), &token, 1_700_000_000), Ok(()));
}

#[test]
fn wrong_secret_is_rejected() {
    let token = signed_token(b"another secret", "1700000000");
    assert_eq!(
        validate_token_at(&config(), &token, 1_700_000_000),
        Err(AuthError::InvalidToken)
    );
}

#[test]
fn signature_of_wrong_length_is_rejected() {
    let token = token_of("1700000000:abcd");
    assert_eq!(
        validate_token_at(&config(), &token, 1_700_000_000),
        Err(AuthError::InvalidToken)
    );
    let token = token_of("1700000000:");
    assert_eq!(
        validate_token_at(&config(), &token, 1_700_000_000),
        Err(AuthError::InvalidToken)
    );
}

#[test]
fn malformed_tokens() {
    let now = 1_700_000_000;
    // not base64
    assert_eq!(validate_token_at(&config(), "a:b", now), Err(AuthError::InvalidFormat));
    assert_eq!(validate_token_at(&config(), "!!!!", now), Err(AuthError::InvalidFormat));
    // no separator
    assert_eq!(
        validate_token_at(&config(), &token_of("1700000000"), now),
        Err(AuthError::InvalidFormat)
    );
    // three parts
    let three = format!("1700000000:{}:", signature_of(SECRET, "1700000000"));
    assert_eq!(validate_token_at(&config(), &token_of(&three), now), Err(AuthError::InvalidFormat));
    // time is no number
    assert_eq!(
        validate_token_at(&config(), &token_of(&format!("x:{}", signature_of(SECRET, "x"))), now),
        Err(AuthError::InvalidFormat)
    );
    assert_eq!(
        validate_token_at(&config(), &token_of(&format!(":{}", signature_of(SECRET, ""))), now),
        Err(AuthError::InvalidFormat)
    );
    assert_eq!(
        validate_token_at(&config(), &token_of("-5:00"), now),
        Err(AuthError::InvalidFormat)
    );
    assert_eq!(
        validate_token_at(&config(), &token_of("18446744073709551616:00"), now),
        Err(AuthError::InvalidFormat)
    );
    // signature is no hexadecimal
    assert_eq!(
        validate_token_at(&config(), &token_of("1700000000:xyz"), now),
        Err(AuthError::InvalidFormat)
    );
    assert_eq!(
        validate_token_at(&config(), &token_of("1700000000:abc"), now),
        Err(AuthError::InvalidFormat)
    );
}

#[test]
fn expiry_is_checked_before_the_signature() {
    let token = token_of("1000000:not hexadecimal");
    assert_eq!(
        validate_token_at(&config(), &token, 1_700_000_000),
        Err(AuthError::ExpiredToken)
    );
}

#[test]
fn payload_that_is_no_utf8_is_malformed() {
    let mut payload = b"1000000:".to_vec();
    payload.push(0xff);
    assert_eq!(
        validate_payload(&config(), &payload, 1_700_000_000),
        Err(AuthError::InvalidFormat)
    );
    let token = base64::engine::general_purpose::STANDARD.encode(&payload);
    assert_eq!(
        validate_token_bytes_at(&config(), token.as_bytes(), 1_700_000_000),
        Err(AuthError::InvalidFormat)
    );
    // the same with well-formed text behind the separator is judged by its age
    assert_eq!(
        validate_payload(&config(), "1000000:\u{e9}".as_bytes(), 1_700_000_000),
        Err(AuthError::ExpiredToken)
    );
}

#[test]
fn time_with_a_plus_sign_is_signed_as_written() {
    let token = signed_token(SECRET, "+1700000000");
    assert_eq!(validate_token_at(&config(), &token, 1_700_000_000), Ok(()));
    let token = token_of(&format!("+1700000000:{}", signature_of(SECRET, "1700000000")));
    assert_eq!(
        validate_token_at(&config(), &token, 1_700_000_000),
        Err(AuthError::InvalidToken)
    );
}

#[test]
fn decimal_numbers() {
    assert_eq!(format_u64(0), b"0".to_vec());
    assert_eq!(format_u64(7), b"7".to_vec());
    assert_eq!(format_u64(1_700_000_000), b"1700000000".to_vec());
    assert_eq!(format_u64(u64::MAX), b"18446744073709551615".to_vec());
    assert_eq!(parse_u64(b"0"), Some(0));
    assert_eq!(parse_u64(b"007"), Some(7));
    assert_eq!(parse_u64(b"+42"), Some(42));
    assert_eq!(parse_u64(b"18446744073709551615"), Some(u64::MAX));
    assert_eq!(parse_u64(b"18446744073709551616"), None);
    assert_eq!(parse_u64(b"99999999999999999999999"), None);
    assert_eq!(parse_u64(b""), None);
    assert_eq!(parse_u64(b"+"), None);
    assert_eq!(parse_u64(b"-1"), None);
    assert_eq!(parse_u64(b"1 "), None);
    assert_eq!(parse_u64(b"12a"), None);
    assert_eq!(parse_u64(b"++1"), None);
    for number in [0u64, 9, 10, 99, 100, 12345, u64::MAX - 1] {
        assert_eq!(parse_u64(&format_u64(number)), Some(number));
        assert_eq!(String::from_utf8(format_u64(number)).unwrap(), number.to_string());
    }
}
