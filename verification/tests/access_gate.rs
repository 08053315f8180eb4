use dazno_umbrel::auth::{Timestamp, User};
use dazno_umbrel::middleware::auth::{generate_auth_token_at, AuthError, TokenConfig};
use dazno_umbrel::middleware::gate::{
    decide_request_at, bearer_token, check_credential, classify_route, is_api_path,
    rejection_without_credential, same_bytes, starts_with, Credential, GateOutcome, Rejection,
    RouteClass,
};
use dazno_umbrel::middleware::rate_limiting::{RateLimitConfig, RateLimitState};
use dazno_umbrel::time::TimeSpan;

const NOW: u64 = 1_700_000_000;

fn config() -> TokenConfig {
    TokenConfig { secret_key: b"gate secret".to_vec(), ttl_seconds: 3600 }
}

fn limiter(max_requests: u32) -> RateLimitState {
    RateLimitState::new(RateLimitConfig { max_requests, window_duration: TimeSpan::from_secs(300) })
}

fn user() -> User {
    User {
        id: 7,
        username: "operator".to_string(),
        password_hash: "$argon2id$...".to_string(),
        created_at: Timestamp { secs: 0, nanos: 0 },
        last_login: None,
        is_admin: true,
        must_change_password: false,
    }
}

fn bearer(issued_at: u64) -> String {
    format!("Bearer {}", generate_auth_token_at(&config(), issued_at))
}

#[test]
fn unauthenticated_api_request_is_unauthorized() {
    let mut limiter = limiter(5);
    let outcome =
        decide_request_at("/api/recommendations", None, None, &config(), &mut limiter, "10.0.0.1", NOW, 0);
    assert!(matches!(outcome, GateOutcome::Rejected(Rejection::Unauthorized)));
    assert_eq!(Rejection::Unauthorized.status_code(), 401);
    assert_eq!(Rejection::Unauthorized.location(), None);
    assert_eq!(limiter.tracked_clients(), 0);
}

#[test]
fn unauthenticated_page_request_is_sent_to_login() {
    let mut limiter = limiter(5);
    let outcome = decide_request_at("/", None, None, &config(), &mut limiter, "10.0.0.1", NOW, 0);
    assert!(matches!(outcome, GateOutcome::Rejected(Rejection::RedirectToLogin)));
    assert_eq!(Rejection::RedirectToLogin.location(), Some("/login"));
    assert_eq!(Rejection::RedirectToLogin.status_code(), 303);
    assert_eq!(limiter.tracked_clients(), 0);
}

#[test]
fn public_routes_pass_untouched() {
    let mut limiter = limiter(0);
    for path in ["/api/health", "/login", "/logout"] {
        for _ in 0..3 {
            let outcome = decide_request_at(path, None, None, &config(), &mut limiter, "10.0.0.1", NOW, 0);
            assert!(matches!(outcome, GateOutcome::Forwarded(None)));
        }
    }
    assert_eq!(limiter.tracked_clients(), 0);
}

#[test]
fn session_comes_before_the_token() {
    let mut limiter = limiter(5);
    let header = bearer(NOW);
    let outcome = decide_request_at(
        "/api/actions",
        Some(user()),
        Some(&header),
        &config(),
        &mut limiter,
        "10.0.0.1",
        NOW,
        0,
    );
    match outcome {
        GateOutcome::Forwarded(Some(Credential::Session(found))) => {
            assert_eq!(found.id, 7);
            assert_eq!(found.username, "operator");
        }
        _ => panic!("the session user was not forwarded"),
    }
    // a session is enough where the header is garbage
    let outcome = decide_request_at(
        "/settings",
        Some(user()),
        Some("garbage"),
        &config(),
        &mut limiter,
        "10.0.0.1",
        NOW,
        1,
    );
    assert!(matches!(outcome, GateOutcome::Forwarded(Some(Credential::Session(_)))));
}

#[test]
fn valid_token_makes_a_service_caller() {
    let mut limiter = limiter(5);
    let header = bearer(NOW - 10);
    let outcome =
        decide_request_at("/api/metrics", None, Some(&header), &config(), &mut limiter, "svc", NOW, 0);
    assert!(matches!(outcome, GateOutcome::Forwarded(Some(Credential::ServiceToken))));
    assert_eq!(limiter.tracked_clients(), 1);
    // a token opens pages too
    let outcome = decide_request_at("/history", None, Some(&header), &config(), &mut limiter, "svc", NOW, 1);
    assert!(matches!(outcome, GateOutcome::Forwarded(Some(Credential::ServiceToken))));
}

#[test]
fn expired_and_forged_tokens_are_turned_away() {
    let mut limiter = limiter(5);
    let expired = bearer(NOW - 3601);
    let outcome =
        decide_request_at("/api/metrics", None, Some(&expired), &config(), &mut limiter, "svc", NOW, 0);
    assert!(matches!(outcome, GateOutcome::Rejected(Rejection::Unauthorized)));
    let outcome = decide_request_at("/ws/realtime", None, Some("Bearer x"), &config(), &mut limiter, "svc", NOW, 0);
    assert!(matches!(outcome, GateOutcome::Rejected(Rejection::Unauthorized)));
    let outcome = decide_request_at("/superior", None, Some(&expired), &config(), &mut limiter, "svc", NOW, 0);
    assert!(matches!(outcome, GateOutcome::Rejected(Rejection::RedirectToLogin)));
    assert_eq!(limiter.tracked_clients(), 0);
}

#[test]
fn spent_budget_is_too_many_requests() {
    let mut limiter = limiter(2);
    let header = bearer(NOW);
    for moment in 0..2 {
        let outcome = decide_request_at(
            "/api/actions",
            None,
            Some(&header),
            &config(),
            &mut limiter,
            "10.0.0.1",
            NOW,
            moment,
        );
        assert!(matches!(outcome, GateOutcome::Forwarded(Some(Credential::ServiceToken))));
    }
    let outcome =
        decide_request_at("/api/actions", Some(user()), None, &config(), &mut limiter, "10.0.0.1", NOW, 3);
    assert!(matches!(outcome, GateOutcome::Rejected(Rejection::TooManyRequests)));
    assert_eq!(Rejection::TooManyRequests.status_code(), 429);
    // another caller has its own budget
    let outcome =
        decide_request_at("/api/actions", Some(user()), None, &config(), &mut limiter, "10.0.0.2", NOW, 4);
    assert!(matches!(outcome, GateOutcome::Forwarded(Some(Credential::Session(_)))));
    // requests without a credential are not counted
    for moment in 5..10 {
        let outcome =
            decide_request_at("/api/actions", None, None, &config(), &mut limiter, "10.0.0.3", NOW, moment);
        assert!(matches!(outcome, GateOutcome::Rejected(Rejection::Unauthorized)));
    }
    assert_eq!(limiter.tracked_clients(), 2);
}

#[test]
fn credential_errors() {
    assert!(matches!(
        check_credential(None, None, &config(), NOW),
        Err(AuthError::MissingToken)
    ));
    assert!(matches!(
        check_credential(None, Some("Basic abc"), &config(), NOW),
        Err(AuthError::InvalidFormat)
    ));
    assert!(matches!(
        check_credential(None, Some("bearer abc"), &config(), NOW),
        Err(AuthError::InvalidFormat)
    ));
    assert!(matches!(
        check_credential(None, Some("Bearer "), &config(), NOW),
        Err(AuthError::InvalidFormat)
    ));
    assert!(matches!(
        check_credential(None, Some(&bearer(1)), &config(), NOW),
        Err(AuthError::ExpiredToken)
    ));
    let other = TokenConfig { secret_key: b"other".to_vec(), ttl_seconds: 3600 };
    let forged = format!("Bearer {}", generate_auth_token_at(&other, NOW));
    assert!(matches!(
        check_credential(None, Some(&forged), &config(), NOW),
        Err(AuthError::InvalidToken)
    ));
    assert!(matches!(
        check_credential(None, Some(&bearer(NOW)), &config(), NOW),
        Ok(Credential::ServiceToken)
    ));
}

#[test]
fn bearer_token_is_what_follows_the_scheme() {
    assert_eq!(bearer_token(Some("Bearer abc")), Ok(&b"abc"[..]));
    assert_eq!(bearer_token(Some("Bearer ")), Ok(&b""[..]));
    assert_eq!(bearer_token(Some("Bearer  abc")), Ok(&b" abc"[..]));
    assert_eq!(bearer_token(Some("Bearer")), Err(AuthError::InvalidFormat));
    assert_eq!(bearer_token(Some("")), Err(AuthError::InvalidFormat));
    assert_eq!(bearer_token(None), Err(AuthError::MissingToken));
}

#[test]
fn routes_are_classified() {
    assert_eq!(classify_route("/api/health"), RouteClass::Public);
    assert_eq!(classify_route("/login"), RouteClass::Public);
    assert_eq!(classify_route("/logout"), RouteClass::Public);
    assert_eq!(classify_route("/"), RouteClass::Protected);
    assert_eq!(classify_route("/login/"), RouteClass::Protected);
    assert_eq!(classify_route("/api/health/x"), RouteClass::Protected);
    assert_eq!(classify_route("/api/recommendations"), RouteClass::Protected);
    assert_eq!(classify_route(""), RouteClass::Protected);
    assert!(is_api_path("/api/recommendations"));
    assert!(is_api_path("/api"));
    assert!(is_api_path("/ws/realtime"));
    assert!(!is_api_path("/"));
    assert!(!is_api_path("/settings"));
    assert!(!is_api_path("/w"));
    assert!(!is_api_path("api/x"));
    assert_eq!(rejection_without_credential("/api/x"), Rejection::Unauthorized);
    assert_eq!(rejection_without_credential("/ws"), Rejection::Unauthorized);
    assert_eq!(rejection_without_credential("/change-password"), Rejection::RedirectToLogin);
}

#[test]
fn prefixes_and_equality_of_bytes() {
    assert!(starts_with(b"abc", b""));
    assert!(starts_with(b"abc", b"ab"));
    assert!(starts_with(b"abc", b"abc"));
    assert!(!starts_with(b"abc", b"abcd"));
    assert!(!starts_with(b"abc", b"b"));
    assert!(same_bytes(b"", b""));
    assert!(same_bytes(b"abc", b"abc"));
    assert!(!same_bytes(b"abc", b"abd"));
    assert!(!same_bytes(b"abc", b"ab"));
}
