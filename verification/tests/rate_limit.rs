use agent_gateway::config::RateLimitConfig;
use agent_gateway::rate_limit::{apply, RateLimiter};

fn enabled_limiter(limit: u64) -> RateLimiter {
    RateLimiter::from_config(&RateLimitConfig {
        enabled: true,
        bytes_per_window: limit,
        window_secs: Some(60),
    })
}

fn disabled_limiter() -> RateLimiter {
    RateLimiter::from_config(&RateLimitConfig::default())
}

#[test]
fn disabled_always_allows() {
    let mut l = disabled_limiter();
    l.record_bytes("agent-alpha", u64::MAX);
    assert!(l.is_allowed("agent-alpha"));
}

#[test]
fn new_identity_is_allowed() {
    assert!(enabled_limiter(1024).is_allowed("agent-alpha"));
}

#[test]
fn identity_below_limit_is_allowed() {
    let mut l = enabled_limiter(1024);
    l.record_bytes("agent-alpha", 512);
    assert!(l.is_allowed("agent-alpha"));
}

#[test]
fn identity_at_limit_is_denied() {
    let mut l = enabled_limiter(1024);
    l.record_bytes("agent-alpha", 1024);
    assert!(!l.is_allowed("agent-alpha"));
}

#[test]
fn multiple_tunnels_accumulate() {
    let mut l = enabled_limiter(1024);
    l.record_bytes("agent-alpha", 600);
    assert!(l.is_allowed("agent-alpha"));
    l.record_bytes("agent-alpha", 600);
    assert!(!l.is_allowed("agent-alpha"));
}

#[test]
fn different_identities_are_independent() {
    let mut l = enabled_limiter(1024);
    l.record_bytes("agent-alpha", 2048);
    assert!(!l.is_allowed("agent-alpha"));
    assert!(l.is_allowed("agent-beta"));
}

#[test]
fn expired_window_resets_on_next_record() {
    let mut l = RateLimiter::from_config(&RateLimitConfig {
        enabled: true,
        bytes_per_window: 1024,
        window_secs: Some(0),
    });
    l.record_bytes("agent-alpha", 2048);
    let start = std::time::Instant::now();
    while start.elapsed() < std::time::Duration::from_millis(1) {}
    assert!(l.is_allowed("agent-alpha"));
}

const SECOND: u128 = 1_000_000_000;

#[test]
fn window_ends_exactly_at_its_length() {
    let mut l = enabled_limiter(1024);
    l.record_bytes_at("agent-alpha", 1024, 5 * SECOND, 5 * SECOND);
    assert!(!l.is_allowed_at("agent-alpha", 5 * SECOND));
    assert!(!l.is_allowed_at("agent-alpha", 65 * SECOND - 1));
    assert!(l.is_allowed_at("agent-alpha", 65 * SECOND));
}

#[test]
fn a_time_before_the_window_counts_as_its_start() {
    let mut l = enabled_limiter(1024);
    l.record_bytes_at("agent-alpha", 1024, 5 * SECOND, 5 * SECOND);
    assert!(!l.is_allowed_at("agent-alpha", 0));
}

#[test]
fn bytes_after_the_window_start_a_new_one() {
    let mut l = enabled_limiter(1024);
    l.record_bytes_at("agent-alpha", 2048, 0, 0);
    l.record_bytes_at("agent-alpha", 1023, 60 * SECOND, 60 * SECOND);
    assert!(l.is_allowed_at("agent-alpha", 61 * SECOND));
    l.record_bytes_at("agent-alpha", 1, 62 * SECOND, 62 * SECOND);
    assert!(!l.is_allowed_at("agent-alpha", 63 * SECOND));
    assert!(!l.is_allowed_at("agent-alpha", 120 * SECOND - 1));
    assert!(l.is_allowed_at("agent-alpha", 120 * SECOND));
}

#[test]
fn only_own_bytes_matter() {
    let mut mixed = enabled_limiter(1024);
    mixed.record_bytes_at("agent-alpha", 600, 0, 0);
    mixed.record_bytes_at("agent-beta", 2048, SECOND, SECOND);
    mixed.record_bytes_at("agent-alpha", 423, 2 * SECOND, 2 * SECOND);
    mixed.record_bytes_at("agent-beta", 1, 61 * SECOND, 61 * SECOND);
    assert!(mixed.is_allowed_at("agent-alpha", 59 * SECOND));
    mixed.record_bytes_at("agent-alpha", 1, 58 * SECOND, 58 * SECOND);
    assert!(!mixed.is_allowed_at("agent-alpha", 60 * SECOND - 1));
    assert!(mixed.is_allowed_at("agent-alpha", 60 * SECOND));
    assert!(mixed.is_allowed_at("agent-beta", 62 * SECOND));
}

#[test]
fn sums_saturate() {
    let mut l = enabled_limiter(u64::MAX);
    l.record_bytes_at("agent-alpha", u64::MAX - 1, 0, 0);
    assert!(l.is_allowed_at("agent-alpha", 1));
    l.record_bytes_at("agent-alpha", u64::MAX, 1, 1);
    assert!(!l.is_allowed_at("agent-alpha", 2));
}

#[test]
fn apply_uses_the_default_window() {
    let mut l = apply(&RateLimitConfig { enabled: true, bytes_per_window: 10, window_secs: None });
    l.record_bytes_at("test-agent", 22, 0, 0);
    assert!(!l.is_allowed_at("test-agent", 3600 * SECOND - 1));
    assert!(l.is_allowed_at("test-agent", 3600 * SECOND));
}

#[test]
fn real_clock_moves_in_nanoseconds() {
    let mut l = RateLimiter::from_config(&RateLimitConfig {
        enabled: true,
        bytes_per_window: 1,
        window_secs: Some(1),
    });
    l.record_bytes("agent-alpha", 1);
    assert!(!l.is_allowed("agent-alpha"));
    let start = std::time::Instant::now();
    while start.elapsed() < std::time::Duration::from_millis(1100) {}
    assert!(l.is_allowed("agent-alpha"));
}
