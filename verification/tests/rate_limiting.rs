use dazno_umbrel::middleware::rate_limiting::{
    create_action_rate_limiter, create_strict_rate_limiter, RateLimitConfig, RateLimitState,
};
use dazno_umbrel::time::TimeSpan;

const SECOND: u128 = 1_000_000_000;
const MILLI: u128 = 1_000_000;

fn wait_millis(millis: u128) {
    let start = std::time::Instant::now();
    while start.elapsed().as_millis() < millis {
        std::hint::spin_loop();
    }
}

#[test]
fn test_rate_limit_within_limit() {
    let config = RateLimitConfig {
        max_requests: 5,
        window_duration: TimeSpan::from_secs(60),
    };
    let mut state = RateLimitState::new(config);

    for i in 1..=5 {
        assert!(
            state.check_rate_limit("test_client"),
            "Request {} should pass",
            i
        );
    }
}

#[test]
fn test_rate_limit_exceeded() {
    let config = RateLimitConfig {
        max_requests: 3,
        window_duration: TimeSpan::from_secs(60),
    };
    let mut state = RateLimitState::new(config);

    for i in 1..=3 {
        assert!(
            state.check_rate_limit("test_client"),
            "Request {} should pass",
            i
        );
    }

    assert!(
        !state.check_rate_limit("test_client"),
        "Request 4 should be blocked"
    );
}

#[test]
fn window_resets_at_a_given_moment() {
    let config = RateLimitConfig {
        max_requests: 2,
        window_duration: TimeSpan::from_millis(100),
    };
    let mut state = RateLimitState::new(config);

    assert!(state.check_rate_limit_at("test_client", 0));
    assert!(state.check_rate_limit_at("test_client", MILLI));
    assert!(!state.check_rate_limit_at("test_client", 2 * MILLI));

    // the window has run out 150 ms after it began
    assert!(state.check_rate_limit_at("test_client", 150 * MILLI));
}

#[test]
fn test_rate_limit_window_reset() {
    let config = RateLimitConfig {
        max_requests: 2,
        window_duration: TimeSpan::from_millis(100),
    };
    let mut state = RateLimitState::new(config);

    assert!(state.check_rate_limit("test_client"));
    assert!(state.check_rate_limit("test_client"));
    assert!(!state.check_rate_limit("test_client"));

    wait_millis(150);

    assert!(state.check_rate_limit("test_client"));
}

#[test]
fn test_different_clients() {
    let config = RateLimitConfig {
        max_requests: 2,
        window_duration: TimeSpan::from_secs(60),
    };
    let mut state = RateLimitState::new(config);

    assert!(state.check_rate_limit("client1"));
    assert!(state.check_rate_limit("client1"));
    assert!(!state.check_rate_limit("client1"));

    assert!(state.check_rate_limit("client2"));
    assert!(state.check_rate_limit("client2"));
    assert!(!state.check_rate_limit("client2"));
}

#[test]
fn cleanup_at_a_given_moment() {
    let config = RateLimitConfig {
        max_requests: 5,
        window_duration: TimeSpan::from_millis(50),
    };
    let mut state = RateLimitState::new(config);

    state.check_rate_limit_at("client1", 0);
    state.check_rate_limit_at("client2", 0);
    assert_eq!(state.tracked_clients(), 2);

    // 200 ms later both windows are four window lengths old
    state.cleanup_expired_entries_at(200 * MILLI);
    assert_eq!(state.tracked_clients(), 0);
}

#[test]
fn test_cleanup_expired_entries() {
    let config = RateLimitConfig {
        max_requests: 5,
        window_duration: TimeSpan::from_millis(50),
    };
    let mut state = RateLimitState::new(config);

    state.check_rate_limit("client1");
    state.check_rate_limit("client2");
    assert_eq!(state.tracked_clients(), 2);

    wait_millis(200);

    state.cleanup_expired_entries();
    assert_eq!(state.tracked_clients(), 0);
}

#[test]
fn three_per_minute_then_denied_then_allowed_after_the_window() {
    let config = RateLimitConfig {
        max_requests: 3,
        window_duration: TimeSpan::from_secs(60),
    };
    let mut state = RateLimitState::new(config);

    assert!(state.check_rate_limit_at("K", 10 * SECOND));
    assert!(state.check_rate_limit_at("K", 11 * SECOND));
    assert!(state.check_rate_limit_at("K", 12 * SECOND));
    assert!(!state.check_rate_limit_at("K", 13 * SECOND));
    // one nanosecond before the window runs out
    assert!(!state.check_rate_limit_at("K", 70 * SECOND - 1));
    // the window has run out
    assert!(state.check_rate_limit_at("K", 70 * SECOND));
    assert!(state.check_rate_limit_at("K", 71 * SECOND));
    assert!(state.check_rate_limit_at("K", 72 * SECOND));
    assert!(!state.check_rate_limit_at("K", 73 * SECOND));
}

#[test]
fn exhausting_one_client_leaves_the_other_its_budget() {
    let config = RateLimitConfig {
        max_requests: 2,
        window_duration: TimeSpan::from_secs(60),
    };
    let mut state = RateLimitState::new(config);

    assert!(state.check_rate_limit_at("K1", 0));
    assert!(state.check_rate_limit_at("K2", 1));
    assert!(state.check_rate_limit_at("K1", 2));
    assert!(!state.check_rate_limit_at("K1", 3));
    assert!(!state.check_rate_limit_at("K1", 4));
    assert!(state.check_rate_limit_at("K2", 5));
    assert!(!state.check_rate_limit_at("K2", 6));
}

#[test]
fn burst_across_the_window_boundary_is_twice_the_budget() {
    let config = RateLimitConfig {
        max_requests: 2,
        window_duration: TimeSpan::from_secs(10),
    };
    let mut state = RateLimitState::new(config);

    assert!(state.check_rate_limit_at("K", 0));
    assert!(state.check_rate_limit_at("K", 10 * SECOND - 2));
    assert!(!state.check_rate_limit_at("K", 10 * SECOND - 1));
    assert!(state.check_rate_limit_at("K", 10 * SECOND));
    assert!(state.check_rate_limit_at("K", 10 * SECOND + 1));
    assert!(!state.check_rate_limit_at("K", 10 * SECOND + 2));
}

#[test]
fn zero_budget_still_counts_the_request_that_opens_a_window() {
    let config = RateLimitConfig {
        max_requests: 0,
        window_duration: TimeSpan::from_secs(60),
    };
    let mut state = RateLimitState::new(config);

    assert!(state.check_rate_limit_at("K", 0));
    assert!(!state.check_rate_limit_at("K", 1));
    assert!(state.check_rate_limit_at("K", 60 * SECOND));
}

#[test]
fn a_clock_that_steps_back_opens_no_window() {
    let config = RateLimitConfig {
        max_requests: 1,
        window_duration: TimeSpan::from_secs(60),
    };
    let mut state = RateLimitState::new(config);

    assert!(state.check_rate_limit_at("K", 100 * SECOND));
    assert!(!state.check_rate_limit_at("K", 0));
}

#[test]
fn cleanup_keeps_entries_younger_than_two_windows() {
    let config = RateLimitConfig {
        max_requests: 5,
        window_duration: TimeSpan::from_secs(10),
    };
    let mut state = RateLimitState::new(config);

    state.check_rate_limit_at("old", 0);
    state.check_rate_limit_at("edge", 1);
    state.check_rate_limit_at("recent", 15 * SECOND);
    assert_eq!(state.tracked_clients(), 3);

    // exactly two windows old is not yet stale
    state.cleanup_expired_entries_at(20 * SECOND);
    assert_eq!(state.tracked_clients(), 3);

    // one nanosecond more, and "old" is forgotten
    state.cleanup_expired_entries_at(20 * SECOND + 1);
    assert_eq!(state.tracked_clients(), 2);
    // "old" opens a new window; "edge" is exactly two windows old and stays
    assert!(state.check_rate_limit_at("old", 20 * SECOND + 1));
    assert_eq!(state.tracked_clients(), 3);

    state.cleanup_expired_entries_at(20 * SECOND + 2);
    assert_eq!(state.tracked_clients(), 2);
}

#[test]
fn limiter_presets() {
    let strict = create_strict_rate_limiter();
    assert_eq!(strict.config().max_requests, 10);
    assert_eq!(strict.config().window_duration.as_nanos(), 60 * SECOND);
    assert_eq!(strict.tracked_clients(), 0);

    let action = create_action_rate_limiter();
    assert_eq!(action.config().max_requests, 5);
    assert_eq!(action.config().window_duration.as_nanos(), 300 * SECOND);

    let general = RateLimitState::default();
    assert_eq!(general.config().max_requests, 100);
    assert_eq!(general.config().window_duration, TimeSpan::from_secs(60));
    assert_eq!(RateLimitConfig::default().max_requests, 100);
}

#[test]
fn time_span_units() {
    assert_eq!(TimeSpan::from_secs(2).as_nanos(), 2_000_000_000);
    assert_eq!(TimeSpan::from_millis(3).as_nanos(), 3_000_000);
    assert_eq!(TimeSpan::from_nanos(7).as_nanos(), 7);
    assert_eq!(TimeSpan::from_secs(u64::MAX).as_nanos(), u64::MAX as u128 * 1_000_000_000);
}
