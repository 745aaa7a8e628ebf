use agent_gateway::config::{
    ensure_positive_timeout, Config, DatabaseUrlSource, ObservabilityConfig, PolicyConfig,
    RateLimitConfig, ServerConfig,
};
use std::time::Duration;

fn policy() -> PolicyConfig {
    PolicyConfig {
        client_ext_oid: "1.3.6.1.4.1.57264.1.1".to_owned(),
        database_url: Some("postgres://db/authz".to_owned()),
        database_url_env: None,
        max_connections: None,
        connect_timeout_ms: None,
        pool_acquire_timeout_ms: None,
        query_timeout_ms: None,
    }
}

fn from_variable(name: &str) -> PolicyConfig {
    PolicyConfig {
        database_url: None,
        database_url_env: Some(name.to_owned()),
        ..policy()
    }
}

fn config() -> Config {
    Config {
        server: ServerConfig {
            listen_addr: "127.0.0.1:8443".to_owned(),
            tls_cert_path: "cert.pem".to_owned(),
            tls_key_path: "key.pem".to_owned(),
        },
        observability: ObservabilityConfig { log_level: "info".to_owned(), otlp_endpoint: None },
        policy: policy(),
        rate_limit: RateLimitConfig::default(),
    }
}

fn refusal(result: Result<(), agent_gateway::config::ConfigError>) -> String {
    result.unwrap_err().message()
}

#[test]
fn defaults() {
    let p = policy();
    assert_eq!(p.max_connections(), 5);
    assert_eq!(p.connect_timeout(), Duration::from_millis(5_000));
    assert_eq!(p.pool_acquire_timeout(), Duration::from_millis(1_000));
    assert_eq!(p.query_timeout(), Duration::from_millis(500));
    let r = RateLimitConfig::default();
    assert!(!r.enabled);
    assert_eq!(r.bytes_per_window, 0);
    assert_eq!(r.window_secs, None);
    assert_eq!(r.window(), Duration::from_secs(3600));
}

#[test]
fn configured_values() {
    let p = PolicyConfig {
        max_connections: Some(7),
        connect_timeout_ms: Some(1),
        pool_acquire_timeout_ms: Some(2),
        query_timeout_ms: Some(u64::MAX),
        ..policy()
    };
    assert_eq!(p.max_connections(), 7);
    assert_eq!(p.connect_timeout().as_nanos(), 1_000_000);
    assert_eq!(p.pool_acquire_timeout().as_nanos(), 2_000_000);
    assert_eq!(p.query_timeout().as_nanos(), u128::from(u64::MAX) * 1_000_000);
    let r = RateLimitConfig { window_secs: Some(60), ..RateLimitConfig::default() };
    assert_eq!(r.window().as_nanos(), 60_000_000_000);
}

#[test]
fn valid_config_passes() {
    assert!(config().validate(Ok(()), Ok(())).is_ok());
    assert!(policy().validate().is_ok());
    assert!(from_variable("DATABASE_URL").validate().is_ok());
    assert!(RateLimitConfig::default().validate().is_ok());
}

#[test]
fn parse_failures_come_first() {
    let mut c = config();
    c.policy.max_connections = Some(0);
    assert_eq!(
        refusal(c.validate(
            Err("invalid socket address syntax".to_owned()),
            Err("bad oid".to_owned())
        )),
        "invalid server.listen_addr: invalid socket address syntax"
    );
    assert_eq!(refusal(c.validate(Ok(()), Err("bad oid".to_owned()))), "bad oid");
    assert_eq!(
        refusal(c.validate(Ok(()), Ok(()))),
        "policy.max_connections must be greater than zero"
    );
}

#[test]
fn rate_limit_is_checked_last() {
    let mut c = config();
    c.rate_limit.enabled = true;
    assert_eq!(
        refusal(c.validate(Ok(()), Ok(()))),
        "rate_limit.bytes_per_window must be greater than zero when rate limiting is enabled"
    );
    c.policy.query_timeout_ms = Some(0);
    assert_eq!(
        refusal(c.validate(Ok(()), Ok(()))),
        "policy.query_timeout_ms must be greater than zero"
    );
}

#[test]
fn zero_timeouts_are_refused() {
    let p = PolicyConfig {
        connect_timeout_ms: Some(0),
        pool_acquire_timeout_ms: Some(0),
        ..policy()
    };
    assert_eq!(refusal(p.validate()), "policy.connect_timeout_ms must be greater than zero");
    let p = PolicyConfig { pool_acquire_timeout_ms: Some(0), ..policy() };
    assert_eq!(refusal(p.validate()), "policy.pool_acquire_timeout_ms must be greater than zero");
    let r = RateLimitConfig { window_secs: Some(0), ..RateLimitConfig::default() };
    assert_eq!(refusal(r.validate()), "rate_limit.window_secs must be greater than zero");
    assert!(ensure_positive_timeout(None, "x").is_ok());
    assert!(ensure_positive_timeout(Some(1), "x").is_ok());
    assert_eq!(refusal(ensure_positive_timeout(Some(0), "x")), "x must be greater than zero");
}

#[test]
fn a_disabled_limiter_needs_no_allowance() {
    let r = RateLimitConfig { enabled: false, bytes_per_window: 0, window_secs: Some(1) };
    assert!(r.validate().is_ok());
    let r = RateLimitConfig { enabled: true, bytes_per_window: 1, window_secs: None };
    assert!(r.validate().is_ok());
}

#[test]
fn database_url_sources_are_checked() {
    let p = PolicyConfig { database_url: Some(String::new()), ..policy() };
    assert_eq!(refusal(p.validate()), "policy.database_url must not be empty");
    assert_eq!(refusal(from_variable("").validate()), "policy.database_url_env must not be empty");
    let p = PolicyConfig { database_url: None, ..policy() };
    assert_eq!(
        refusal(p.validate()),
        "policy.database_url or policy.database_url_env is required"
    );
    let p = PolicyConfig { database_url_env: Some("X".to_owned()), ..policy() };
    assert_eq!(
        refusal(p.validate()),
        "set only one of policy.database_url or policy.database_url_env"
    );
    assert_eq!(
        p.database_url(Ok("u".to_owned())).unwrap_err().message(),
        "set only one of policy.database_url or policy.database_url_env"
    );
}

#[test]
fn database_url_is_resolved() {
    let unread = || Err("not read".to_owned());
    assert_eq!(policy().database_url(unread()).unwrap(), "postgres://db/authz");
    let p = from_variable("DB");
    assert!(matches!(p.database_url_source(), Ok(DatabaseUrlSource::Variable(n)) if n == "DB"));
    assert!(matches!(policy().database_url_source(), Ok(DatabaseUrlSource::Literal(_))));
    assert_eq!(p.database_url(Ok("postgres://other".to_owned())).unwrap(), "postgres://other");
    assert_eq!(
        p.database_url(Err("environment variable not found".to_owned())).unwrap_err().message(),
        "reading database URL from $DB: environment variable not found"
    );
    assert_eq!(
        p.database_url(Ok(String::new())).unwrap_err().message(),
        "database URL from $DB must not be empty"
    );
}
