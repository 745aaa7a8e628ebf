//! The gateway's configuration: its values, their defaults, and the rules that a
//! configuration has to meet before the gateway starts.
use crate::clock::duration_nanos;
use crate::text::joined;
use std::time::Duration;
use vstd::prelude::*;

verus! {

/// Database connections that the policy engine may open where nothing is configured.
pub const DEFAULT_MAX_CONNECTIONS: u32 = 5;

/// Milliseconds to wait for a database connection where nothing is configured.
pub const DEFAULT_CONNECT_TIMEOUT_MS: u64 = 5_000;

/// Milliseconds to wait for a pooled connection where nothing is configured.
pub const DEFAULT_POOL_ACQUIRE_TIMEOUT_MS: u64 = 1_000;

/// Milliseconds to wait for a policy query where nothing is configured.
pub const DEFAULT_QUERY_TIMEOUT_MS: u64 = 500;

/// Seconds in a rate limit window where nothing is configured.
pub const DEFAULT_WINDOW_SECS: u64 = 3600;

#[derive(Debug)]
pub struct Config {
    pub server: ServerConfig,
    pub observability: ObservabilityConfig,
    pub policy: PolicyConfig,
    pub rate_limit: RateLimitConfig,
}

#[derive(Debug)]
pub struct ServerConfig {
    pub listen_addr: String,
    pub tls_cert_path: String,
    pub tls_key_path: String,
}

#[derive(Debug)]
pub struct ObservabilityConfig {
    pub log_level: String,
    pub otlp_endpoint: Option<String>,
}

#[derive(Debug)]
pub struct PolicyConfig {
    pub client_ext_oid: String,
    pub database_url: Option<String>,
    pub database_url_env: Option<String>,
    pub max_connections: Option<u32>,
    pub connect_timeout_ms: Option<u64>,
    pub pool_acquire_timeout_ms: Option<u64>,
    pub query_timeout_ms: Option<u64>,
}

#[derive(Debug)]
pub struct RateLimitConfig {
    pub enabled: bool,
    pub bytes_per_window: u64,
    pub window_secs: Option<u64>,
}

/// Why a configuration is refused.
#[derive(Debug)]
pub enum ConfigError {
    /// `server.listen_addr` is no socket address; the words are the address parser's.
    ListenAddr(String),
    /// `policy.client_ext_oid` is no object identifier; the words are its parser's.
    ClientExtOid(String),
    NoConnections,
    /// The named field holds zero.
    NotPositive(String),
    EmptyDatabaseUrl,
    EmptyDatabaseUrlEnv,
    MissingDatabaseUrl,
    TwoDatabaseUrls,
    /// The environment variable `name` could not be read; `error` says why.
    UnreadableVariable { name: String, error: String },
    /// The environment variable `name` holds nothing.
    EmptyVariable { name: String },
    NoByteAllowance,
}

/// A [`ConfigError`] with its strings as character sequences.
pub ghost enum ConfigErrorView {
    ListenAddr(Seq<char>),
    ClientExtOid(Seq<char>),
    NoConnections,
    NotPositive(Seq<char>),
    EmptyDatabaseUrl,
    EmptyDatabaseUrlEnv,
    MissingDatabaseUrl,
    TwoDatabaseUrls,
    UnreadableVariable { name: Seq<char>, error: Seq<char> },
    EmptyVariable { name: Seq<char> },
    NoByteAllowance,
}

impl View for ConfigError {
    type V = ConfigErrorView;

    open spec fn view(&self) -> ConfigErrorView {
        match *self {
            ConfigError::ListenAddr(e) => ConfigErrorView::ListenAddr(e@),
            ConfigError::ClientExtOid(e) => ConfigErrorView::ClientExtOid(e@),
            ConfigError::NoConnections => ConfigErrorView::NoConnections,
            ConfigError::NotPositive(field) => ConfigErrorView::NotPositive(field@),
            ConfigError::EmptyDatabaseUrl => ConfigErrorView::EmptyDatabaseUrl,
            ConfigError::EmptyDatabaseUrlEnv => ConfigErrorView::EmptyDatabaseUrlEnv,
            ConfigError::MissingDatabaseUrl => ConfigErrorView::MissingDatabaseUrl,
            ConfigError::TwoDatabaseUrls => ConfigErrorView::TwoDatabaseUrls,
            ConfigError::UnreadableVariable { name, error } => {
                ConfigErrorView::UnreadableVariable { name: name@, error: error@ }
            },
            ConfigError::EmptyVariable { name } => ConfigErrorView::EmptyVariable { name: name@ },
            ConfigError::NoByteAllowance => ConfigErrorView::NoByteAllowance,
        }
    }
}

impl ConfigErrorView {
    /// The words in which an operator reads of the error.
    pub open spec fn message(self) -> Seq<char> {
        match self {
            ConfigErrorView::ListenAddr(e) => "invalid server.listen_addr: "@ + e,
            ConfigErrorView::ClientExtOid(e) => e,
            ConfigErrorView::NoConnections => "policy.max_connections must be greater than zero"@,
            ConfigErrorView::NotPositive(field) => field + " must be greater than zero"@,
            ConfigErrorView::EmptyDatabaseUrl => "policy.database_url must not be empty"@,
            ConfigErrorView::EmptyDatabaseUrlEnv => "policy.database_url_env must not be empty"@,
            ConfigErrorView::MissingDatabaseUrl => {
                "policy.database_url or policy.database_url_env is required"@
            },
            ConfigErrorView::TwoDatabaseUrls => {
                "set only one of policy.database_url or policy.database_url_env"@
            },
            ConfigErrorView::UnreadableVariable { name, error } => {
                "reading database URL from $"@ + name + ": "@ + error
            },
            ConfigErrorView::EmptyVariable { name } => {
                "database URL from $"@ + name + " must not be empty"@
            },
            ConfigErrorView::NoByteAllowance => {
                "rate_limit.bytes_per_window must be greater than zero when rate limiting is enabled"@
            },
        }
    }
}

impl ConfigError {
    /// The words in which an operator reads of the error.
    pub fn message(&self) -> (message: String)
        ensures
            message@ == self@.message(),
    {
        match self {
            ConfigError::ListenAddr(e) => joined("invalid server.listen_addr: ", e.as_str()),
            ConfigError::ClientExtOid(e) => e.clone(),
            ConfigError::NoConnections => {
                "policy.max_connections must be greater than zero".to_owned()
            },
            ConfigError::NotPositive(field) => {
                joined(field.as_str(), " must be greater than zero")
            },
            ConfigError::EmptyDatabaseUrl => "policy.database_url must not be empty".to_owned(),
            ConfigError::EmptyDatabaseUrlEnv => {
                "policy.database_url_env must not be empty".to_owned()
            },
            ConfigError::MissingDatabaseUrl => {
                "policy.database_url or policy.database_url_env is required".to_owned()
            },
            ConfigError::TwoDatabaseUrls => {
                "set only one of policy.database_url or policy.database_url_env".to_owned()
            },
            ConfigError::UnreadableVariable { name, error } => {
                let source = joined("reading database URL from $", name.as_str());
                let introduced = joined(source.as_str(), ": ");
                joined(introduced.as_str(), error.as_str())
            },
            ConfigError::EmptyVariable { name } => {
                let source = joined("database URL from $", name.as_str());
                joined(source.as_str(), " must not be empty")
            },
            ConfigError::NoByteAllowance => {
                "rate_limit.bytes_per_window must be greater than zero when rate limiting is enabled".to_owned()
            },
        }
    }
}

/// What a check that found `fault` returns.
pub open spec fn reports(result: Result<(), ConfigError>, fault: Option<ConfigErrorView>) -> bool {
    match result {
        Ok(_) => fault is None,
        Err(e) => fault == Some(e@),
    }
}

/// The first fault of two checks made one after the other.
pub open spec fn first_fault(
    first: Option<ConfigErrorView>,
    second: Option<ConfigErrorView>,
) -> Option<ConfigErrorView> {
    if first is Some {
        first
    } else {
        second
    }
}

/// A configured zero is a fault; a positive value, and none at all, is not.
pub open spec fn timeout_fault(value: Option<u64>, field: Seq<char>) -> Option<ConfigErrorView> {
    if value == Some(0u64) {
        Some(ConfigErrorView::NotPositive(field))
    } else {
        None
    }
}

/// Refuses a `value` of zero for `field`.
pub fn ensure_positive_timeout(value: Option<u64>, field: &str) -> (result: Result<(), ConfigError>)
    ensures
        reports(result, timeout_fault(value, field@)),
{
    match value {
        Some(v) => {
            if v > 0 {
                Ok(())
            } else {
                Err(ConfigError::NotPositive(field.to_owned()))
            }
        },
        None => Ok(()),
    }
}

/// A configured number, or the default where none is configured.
pub open spec fn or_default(value: Option<u64>, default: u64) -> nat {
    match value {
        Some(v) => v as nat,
        None => default as nat,
    }
}

/// Where the database URL comes from.
#[derive(Debug)]
pub enum DatabaseUrlSource {
    /// The URL itself.
    Literal(String),
    /// The name of the environment variable that holds the URL.
    Variable(String),
}

impl PolicyConfig {
    /// Connections to open at most, with the default filled in.
    pub open spec fn connections(self) -> u32 {
        match self.max_connections {
            Some(n) => n,
            None => DEFAULT_MAX_CONNECTIONS,
        }
    }

    #[must_use]
    pub fn max_connections(&self) -> (n: u32)
        ensures
            n == self.connections(),
    {
        match self.max_connections {
            Some(n) => n,
            None => DEFAULT_MAX_CONNECTIONS,
        }
    }

    #[must_use]
    pub fn connect_timeout(&self) -> (timeout: Duration)
        ensures
            duration_nanos(timeout) == 1_000_000 * or_default(
                self.connect_timeout_ms,
                DEFAULT_CONNECT_TIMEOUT_MS,
            ),
            self.connect_timeout_ms matches Some(ms) ==> duration_nanos(timeout) == 1_000_000 * ms,
            self.connect_timeout_ms is None ==> duration_nanos(timeout) == 5_000_000_000,
    {
        Duration::from_millis(self.connect_timeout_ms.unwrap_or(DEFAULT_CONNECT_TIMEOUT_MS))
    }

    #[must_use]
    pub fn pool_acquire_timeout(&self) -> (timeout: Duration)
        ensures
            duration_nanos(timeout) == 1_000_000 * or_default(
                self.pool_acquire_timeout_ms,
                DEFAULT_POOL_ACQUIRE_TIMEOUT_MS,
            ),
            self.pool_acquire_timeout_ms matches Some(ms) ==> duration_nanos(timeout) == 1_000_000 * ms,
            self.pool_acquire_timeout_ms is None ==> duration_nanos(timeout) == 1_000_000_000,
    {
        Duration::from_millis(
            self.pool_acquire_timeout_ms.unwrap_or(DEFAULT_POOL_ACQUIRE_TIMEOUT_MS),
        )
    }

    #[must_use]
    pub fn query_timeout(&self) -> (timeout: Duration)
        ensures
            duration_nanos(timeout) == 1_000_000 * or_default(
                self.query_timeout_ms,
                DEFAULT_QUERY_TIMEOUT_MS,
            ),
            self.query_timeout_ms matches Some(ms) ==> duration_nanos(timeout) == 1_000_000 * ms,
            self.query_timeout_ms is None ==> duration_nanos(timeout) == 500_000_000,
    {
        Duration::from_millis(self.query_timeout_ms.unwrap_or(DEFAULT_QUERY_TIMEOUT_MS))
    }

    /// Exactly one of the two places for the database URL has to be filled, and not
    /// with the empty string.
    pub open spec fn source_fault(self) -> Option<ConfigErrorView> {
        match (self.database_url, self.database_url_env) {
            (Some(url), None) => if url@.len() == 0 {
                Some(ConfigErrorView::EmptyDatabaseUrl)
            } else {
                None
            },
            (None, Some(name)) => if name@.len() == 0 {
                Some(ConfigErrorView::EmptyDatabaseUrlEnv)
            } else {
                None
            },
            (None, None) => Some(ConfigErrorView::MissingDatabaseUrl),
            (Some(_), Some(_)) => Some(ConfigErrorView::TwoDatabaseUrls),
        }
    }

    /// Where the database URL is to be taken from.
    ///
    /// # Errors
    ///
    /// Returns an error if no source is configured, both sources are configured, or
    /// the configured source is empty.
    pub fn database_url_source(&self) -> (source: Result<DatabaseUrlSource, ConfigError>)
        ensures
            match source {
                Ok(DatabaseUrlSource::Literal(url)) => {
                    &&& self.source_fault() is None
                    &&& self.database_url is Some
                    &&& url@ == self.database_url->0@
                },
                Ok(DatabaseUrlSource::Variable(name)) => {
                    &&& self.source_fault() is None
                    &&& self.database_url_env is Some
                    &&& name@ == self.database_url_env->0@
                },
                Err(e) => self.source_fault() == Some(e@),
            },
    {
        match (&self.database_url, &self.database_url_env) {
            (Some(url), None) => {
                if url.as_str().is_empty() {
                    Err(ConfigError::EmptyDatabaseUrl)
                } else {
                    Ok(DatabaseUrlSource::Literal(url.clone()))
                }
            },
            (None, Some(name)) => {
                if name.as_str().is_empty() {
                    Err(ConfigError::EmptyDatabaseUrlEnv)
                } else {
                    Ok(DatabaseUrlSource::Variable(name.clone()))
                }
            },
            (None, None) => Err(ConfigError::MissingDatabaseUrl),
            (Some(_), Some(_)) => Err(ConfigError::TwoDatabaseUrls),
        }
    }

    /// The fault found while resolving the database URL, where reading the
    /// configured environment variable gave `variable`.
    pub open spec fn url_fault(self, variable: Result<Seq<char>, Seq<char>>) -> Option<
        ConfigErrorView,
    > {
        if self.source_fault() is Some || self.database_url is Some {
            self.source_fault()
        } else {
            let name = self.database_url_env->0@;
            match variable {
                Err(error) => Some(ConfigErrorView::UnreadableVariable { name, error }),
                Ok(url) => if url.len() == 0 {
                    Some(ConfigErrorView::EmptyVariable { name })
                } else {
                    None
                },
            }
        }
    }

    /// The database URL that a configuration without a fault resolves to.
    pub open spec fn resolved_url(self, variable: Result<Seq<char>, Seq<char>>) -> Seq<char> {
        if self.database_url is Some {
            self.database_url->0@
        } else {
            variable->Ok_0
        }
    }

    /// Resolve the configured database URL from the literal value or env var.
    /// `variable` is what reading the variable named by
    /// [`database_url_source`](Self::database_url_source) gave; it is looked at only
    /// where that source is a variable.
    ///
    /// # Errors
    ///
    /// Returns an error if no source is configured, both sources are configured,
    /// the configured source is empty, or the environment variable cannot be read.
    pub fn database_url(&self, variable: Result<String, String>) -> (url: Result<
        String,
        ConfigError,
    >)
        ensures
            match url {
                Ok(url) => {
                    &&& self.url_fault(text_result(variable)) is None
                    &&& url@ == self.resolved_url(text_result(variable))
                },
                Err(e) => self.url_fault(text_result(variable)) == Some(e@),
            },
    {
        match self.database_url_source() {
            Err(e) => Err(e),
            Ok(DatabaseUrlSource::Literal(url)) => Ok(url),
            Ok(DatabaseUrlSource::Variable(name)) => match variable {
                Err(error) => Err(ConfigError::UnreadableVariable { name, error }),
                Ok(url) => {
                    if url.as_str().is_empty() {
                        Err(ConfigError::EmptyVariable { name })
                    } else {
                        Ok(url)
                    }
                },
            },
        }
    }

    /// The first rule that the policy section breaks.
    pub open spec fn fault(self) -> Option<ConfigErrorView> {
        first_fault(
            if self.connections() == 0 {
                Some(ConfigErrorView::NoConnections)
            } else {
                None
            },
            first_fault(
                timeout_fault(self.connect_timeout_ms, "policy.connect_timeout_ms"@),
                first_fault(
                    timeout_fault(self.pool_acquire_timeout_ms, "policy.pool_acquire_timeout_ms"@),
                    first_fault(
                        timeout_fault(self.query_timeout_ms, "policy.query_timeout_ms"@),
                        self.source_fault(),
                    ),
                ),
            ),
        )
    }

    /// Checks the policy section, rule by rule.
    pub fn validate(&self) -> (result: Result<(), ConfigError>)
        ensures
            reports(result, self.fault()),
    {
        if self.max_connections() == 0 {
            return Err(ConfigError::NoConnections);
        }
        ensure_positive_timeout(self.connect_timeout_ms, "policy.connect_timeout_ms")?;
        ensure_positive_timeout(self.pool_acquire_timeout_ms, "policy.pool_acquire_timeout_ms")?;
        ensure_positive_timeout(self.query_timeout_ms, "policy.query_timeout_ms")?;
        match self.database_url_source() {
            Ok(_) => Ok(()),
            Err(e) => Err(e),
        }
    }
}

/// A string or an error message, with the strings as character sequences.
pub open spec fn text_result(r: Result<String, String>) -> Result<Seq<char>, Seq<char>> {
    match r {
        Ok(s) => Ok(s@),
        Err(e) => Err(e@),
    }
}

impl Default for RateLimitConfig {
    fn default() -> (config: Self)
        ensures
            config == (RateLimitConfig { enabled: false, bytes_per_window: 0, window_secs: None }),
    {
        RateLimitConfig { enabled: false, bytes_per_window: 0, window_secs: None }
    }
}

impl RateLimitConfig {
    /// Seconds in a window, with the default filled in.
    pub open spec fn seconds(self) -> nat {
        or_default(self.window_secs, DEFAULT_WINDOW_SECS)
    }

    #[must_use]
    pub fn window(&self) -> (window: Duration)
        ensures
            duration_nanos(window) == 1_000_000_000 * self.seconds(),
            self.window_secs matches Some(secs) ==> duration_nanos(window) == 1_000_000_000 * secs,
            self.window_secs is None ==> duration_nanos(window) == 3_600_000_000_000,
    {
        Duration::from_secs(self.window_secs.unwrap_or(DEFAULT_WINDOW_SECS))
    }

    /// The first rule that the rate limit section breaks.
    pub open spec fn fault(self) -> Option<ConfigErrorView> {
        first_fault(
            if self.enabled && self.bytes_per_window == 0 {
                Some(ConfigErrorView::NoByteAllowance)
            } else {
                None
            },
            timeout_fault(self.window_secs, "rate_limit.window_secs"@),
        )
    }

    /// Checks the rate limit section, rule by rule.
    pub fn validate(&self) -> (result: Result<(), ConfigError>)
        ensures
            reports(result, self.fault()),
    {
        if self.enabled {
            if self.bytes_per_window == 0 {
                return Err(ConfigError::NoByteAllowance);
            }
        }
        ensure_positive_timeout(self.window_secs, "rate_limit.window_secs")
    }
}

/// The fault that a parser's verdict on the listen address comes to.
pub open spec fn listen_addr_fault(parsed: Result<(), String>) -> Option<ConfigErrorView> {
    match parsed {
        Ok(_) => None,
        Err(e) => Some(ConfigErrorView::ListenAddr(e@)),
    }
}

/// The fault that a parser's verdict on the client extension's identifier comes to.
pub open spec fn client_ext_oid_fault(parsed: Result<(), String>) -> Option<ConfigErrorView> {
    match parsed {
        Ok(_) => None,
        Err(e) => Some(ConfigErrorView::ClientExtOid(e@)),
    }
}

impl Config {
    /// The first rule that the configuration breaks, where `listen_addr` and
    /// `client_ext_oid` say whether those two fields could be parsed.
    pub open spec fn fault(
        self,
        listen_addr: Result<(), String>,
        client_ext_oid: Result<(), String>,
    ) -> Option<ConfigErrorView> {
        first_fault(
            listen_addr_fault(listen_addr),
            first_fault(
                client_ext_oid_fault(client_ext_oid),
                first_fault(self.policy.fault(), self.rate_limit.fault()),
            ),
        )
    }

    /// Checks the whole configuration, rule by rule. `listen_addr` is what parsing
    /// `server.listen_addr` as a socket address gave, `client_ext_oid` what parsing
    /// `policy.client_ext_oid` as an object identifier gave.
    ///
    /// # Errors
    ///
    /// Returns an error if any config value fails validation.
    pub fn validate(
        &self,
        listen_addr: Result<(), String>,
        client_ext_oid: Result<(), String>,
    ) -> (result: Result<(), ConfigError>)
        ensures
            reports(result, self.fault(listen_addr, client_ext_oid)),
    {
        if let Err(e) = listen_addr {
            return Err(ConfigError::ListenAddr(e));
        }
        if let Err(e) = client_ext_oid {
            return Err(ConfigError::ClientExtOid(e));
        }
        self.policy.validate()?;
        self.rate_limit.validate()
    }
}

/// A policy section without a fault has connections to open, waits for a time that is
/// not zero, and has exactly one source for the database URL, which is not empty.
pub proof fn valid_policy_is_usable(policy: PolicyConfig)
    requires
        policy.fault() is None,
    ensures
        policy.connections() > 0,
        or_default(policy.connect_timeout_ms, DEFAULT_CONNECT_TIMEOUT_MS) > 0,
        or_default(policy.pool_acquire_timeout_ms, DEFAULT_POOL_ACQUIRE_TIMEOUT_MS) > 0,
        or_default(policy.query_timeout_ms, DEFAULT_QUERY_TIMEOUT_MS) > 0,
        policy.database_url is Some <==> policy.database_url_env is None,
        policy.database_url matches Some(url) ==> url@.len() > 0,
        policy.database_url_env matches Some(name) ==> name@.len() > 0,
{
}

/// A policy section without a fault that holds the database URL itself resolves to it,
/// whatever the environment holds.
pub proof fn literal_url_resolves(policy: PolicyConfig, variable: Result<Seq<char>, Seq<char>>)
    requires
        policy.fault() is None,
        policy.database_url is Some,
    ensures
        policy.url_fault(variable) is None,
        policy.resolved_url(variable) == policy.database_url->0@,
        policy.resolved_url(variable).len() > 0,
{
}

/// A policy section without a fault that names an environment variable resolves to what
/// the variable holds, and fails only where that cannot be read or is empty.
pub proof fn variable_url_resolves(policy: PolicyConfig, variable: Result<Seq<char>, Seq<char>>)
    requires
        policy.fault() is None,
        policy.database_url_env is Some,
    ensures
        policy.url_fault(variable) is None <==> variable is Ok && variable->Ok_0.len() > 0,
        policy.url_fault(variable) is None ==> policy.resolved_url(variable) == variable->Ok_0,
{
}

/// A resolved database URL is never empty.
pub proof fn resolved_url_is_not_empty(
    policy: PolicyConfig,
    variable: Result<Seq<char>, Seq<char>>,
)
    requires
        policy.url_fault(variable) is None,
    ensures
        policy.resolved_url(variable).len() > 0,
{
}

/// A rate limit section without a fault has windows of some length and, where it is
/// enabled, some bytes to allow in each.
pub proof fn valid_rate_limit_is_usable(rate_limit: RateLimitConfig)
    requires
        rate_limit.fault() is None,
    ensures
        rate_limit.seconds() > 0,
        rate_limit.enabled ==> rate_limit.bytes_per_window > 0,
{
}

/// Where a configuration is without a fault, so is each of its parts.
pub proof fn valid_config_has_valid_parts(
    config: Config,
    listen_addr: Result<(), String>,
    client_ext_oid: Result<(), String>,
)
    ensures
        config.fault(listen_addr, client_ext_oid) is None <==> {
            &&& listen_addr is Ok
            &&& client_ext_oid is Ok
            &&& config.policy.fault() is None
            &&& config.rate_limit.fault() is None
        },
{
}

/// A configured number is kept; where none is configured the default stands in.
pub proof fn configured_numbers_are_kept(policy: PolicyConfig, rate_limit: RateLimitConfig)
    ensures
        policy.max_connections matches Some(n) ==> policy.connections() == n,
        policy.max_connections is None ==> policy.connections() == 5,
        rate_limit.window_secs matches Some(secs) ==> rate_limit.seconds() == secs,
        rate_limit.window_secs is None ==> rate_limit.seconds() == 3600,
        DEFAULT_CONNECT_TIMEOUT_MS == 5_000,
        DEFAULT_POOL_ACQUIRE_TIMEOUT_MS == 1_000,
        DEFAULT_QUERY_TIMEOUT_MS == 500,
{
}

/// A number that is configured wins over any default.
pub proof fn a_default_fills_in_for_nothing_else(value: u64, default: u64)
    ensures
        or_default(Some(value), default) == value,
        or_default(None, default) == default,
{
}

/// Zero is the one number that a timeout is refused for, and the refusal names the field.
pub proof fn only_zero_is_no_timeout(value: Option<u64>, field: Seq<char>)
    ensures
        timeout_fault(value, field) is Some <==> value is Some && value->0 == 0,
        timeout_fault(value, field) matches Some(fault) ==> fault == ConfigErrorView::NotPositive(
            field,
        ),
{
}

/// A check succeeds just where there is no fault, and fails with the fault that there is.
pub proof fn checks_report_what_they_find(
    result: Result<(), ConfigError>,
    fault: Option<ConfigErrorView>,
)
    requires
        reports(result, fault),
    ensures
        result is Ok <==> fault is None,
        result matches Err(e) ==> fault == Some(e@),
{
}

/// A configuration is accepted just where the two parsed fields are in order, no number
/// that has to be positive is configured as zero, exactly one source of the database URL
/// is configured and is not empty, and an enabled rate limiter has bytes to allow.
pub proof fn every_usable_config_is_accepted(
    config: Config,
    listen_addr: Result<(), String>,
    client_ext_oid: Result<(), String>,
)
    ensures
        config.fault(listen_addr, client_ext_oid) is None <==> {
            &&& listen_addr is Ok
            &&& client_ext_oid is Ok
            &&& config.policy.max_connections != Some(0u32)
            &&& config.policy.connect_timeout_ms != Some(0u64)
            &&& config.policy.pool_acquire_timeout_ms != Some(0u64)
            &&& config.policy.query_timeout_ms != Some(0u64)
            &&& config.policy.database_url is Some <==> config.policy.database_url_env is None
            &&& config.policy.database_url is Some ==> config.policy.database_url->0@.len() > 0
            &&& config.policy.database_url_env is Some
                ==> config.policy.database_url_env->0@.len() > 0
            &&& config.rate_limit.enabled ==> config.rate_limit.bytes_per_window > 0
            &&& config.rate_limit.window_secs != Some(0u64)
        },
{
}

/// The policy section and the rate limit section are accepted each on its own merits.
pub proof fn every_usable_section_is_accepted(policy: PolicyConfig, rate_limit: RateLimitConfig)
    ensures
        policy.fault() is None <==> {
            &&& policy.max_connections != Some(0u32)
            &&& policy.connect_timeout_ms != Some(0u64)
            &&& policy.pool_acquire_timeout_ms != Some(0u64)
            &&& policy.query_timeout_ms != Some(0u64)
            &&& policy.database_url is Some <==> policy.database_url_env is None
            &&& policy.database_url is Some ==> policy.database_url->0@.len() > 0
            &&& policy.database_url_env is Some ==> policy.database_url_env->0@.len() > 0
        },
        rate_limit.fault() is None <==> {
            &&& rate_limit.enabled ==> rate_limit.bytes_per_window > 0
            &&& rate_limit.window_secs != Some(0u64)
        },
{
}

/// The parsed fields are looked at first, the listen address before the identifier, and
/// their parsers' words are kept. Then comes the policy section, then the rate limit.
pub proof fn sections_are_checked_in_order(
    config: Config,
    listen_addr: Result<(), String>,
    client_ext_oid: Result<(), String>,
)
    ensures
        listen_addr matches Err(e) ==> config.fault(listen_addr, client_ext_oid) == Some(
            ConfigErrorView::ListenAddr(e@),
        ),
        listen_addr is Ok ==> (client_ext_oid matches Err(e) ==> config.fault(
            listen_addr,
            client_ext_oid,
        ) == Some(ConfigErrorView::ClientExtOid(e@))),
        listen_addr is Ok && client_ext_oid is Ok && config.policy.fault() is Some
            ==> config.fault(listen_addr, client_ext_oid) == config.policy.fault(),
        listen_addr is Ok && client_ext_oid is Ok && config.policy.fault() is None
            ==> config.fault(listen_addr, client_ext_oid) == config.rate_limit.fault(),
{
}

/// Of several broken rules of the policy section the first is reported: the number of
/// connections, the timeouts for connecting, for the pool and for a query, and then the
/// source of the database URL.
pub proof fn the_first_broken_policy_rule_is_reported(policy: PolicyConfig)
    ensures
        ({
            let connect = policy.connect_timeout_ms == Some(0u64);
            let pool = policy.pool_acquire_timeout_ms == Some(0u64);
            let query = policy.query_timeout_ms == Some(0u64);
            let fault = policy.fault();
            if policy.max_connections == Some(0u32) {
                fault == Some(ConfigErrorView::NoConnections)
            } else {
                &&& connect ==> fault == Some(
                    ConfigErrorView::NotPositive("policy.connect_timeout_ms"@),
                )
                &&& !connect && pool ==> fault == Some(
                    ConfigErrorView::NotPositive("policy.pool_acquire_timeout_ms"@),
                )
                &&& !connect && !pool && query ==> fault == Some(
                    ConfigErrorView::NotPositive("policy.query_timeout_ms"@),
                )
                &&& !connect && !pool && !query ==> fault == policy.source_fault()
            }
        }),
{
}

/// An enabled limiter without bytes to allow is reported before a window without length.
pub proof fn the_first_broken_rate_limit_rule_is_reported(rate_limit: RateLimitConfig)
    ensures
        rate_limit.enabled && rate_limit.bytes_per_window == 0 ==> rate_limit.fault() == Some(
            ConfigErrorView::NoByteAllowance,
        ),
        !(rate_limit.enabled && rate_limit.bytes_per_window == 0) && rate_limit.window_secs
            == Some(0u64) ==> rate_limit.fault() == Some(
            ConfigErrorView::NotPositive("rate_limit.window_secs"@),
        ),
{
}

/// The database URL has one source. None, two, and an empty one are told apart.
pub proof fn the_database_url_has_one_source(policy: PolicyConfig)
    ensures
        policy.database_url is None && policy.database_url_env is None ==> policy.source_fault()
            == Some(ConfigErrorView::MissingDatabaseUrl),
        policy.database_url is Some && policy.database_url_env is Some ==> policy.source_fault()
            == Some(ConfigErrorView::TwoDatabaseUrls),
        policy.database_url_env is None ==> (policy.database_url matches Some(url) ==> {
            &&& url@.len() == 0 ==> policy.source_fault() == Some(
                ConfigErrorView::EmptyDatabaseUrl,
            )
            &&& url@.len() > 0 ==> policy.source_fault() is None
        }),
        policy.database_url is None ==> (policy.database_url_env matches Some(name) ==> {
            &&& name@.len() == 0 ==> policy.source_fault() == Some(
                ConfigErrorView::EmptyDatabaseUrlEnv,
            )
            &&& name@.len() > 0 ==> policy.source_fault() is None
        }),
{
}

/// A configured URL is resolved as it stands and the environment is not looked at. A
/// configured variable is resolved to what it holds; where it holds nothing or cannot be
/// read, the error names it. Without one source in order the source's fault remains.
pub proof fn the_database_url_is_what_its_source_holds(
    policy: PolicyConfig,
    variable: Result<Seq<char>, Seq<char>>,
)
    ensures
        policy.source_fault() is Some ==> policy.url_fault(variable) == policy.source_fault(),
        policy.database_url_env is None ==> (policy.database_url matches Some(url) ==> (
        url@.len() > 0 ==> policy.url_fault(variable) is None && policy.resolved_url(variable)
            == url@)),
        policy.database_url is None ==> (policy.database_url_env matches Some(name) ==> (
        name@.len() > 0 ==> match variable {
            Err(error) => policy.url_fault(variable) == Some(
                (ConfigErrorView::UnreadableVariable { name: name@, error }),
            ),
            Ok(url) => {
                &&& url.len() == 0 ==> policy.url_fault(variable) == Some(
                    (ConfigErrorView::EmptyVariable { name: name@ }),
                )
                &&& url.len() > 0 ==> policy.url_fault(variable) is None && policy.resolved_url(
                    variable,
                ) == url
            },
        })),
{
}

/// What a variable held, or why it could not be read, is taken word by word.
pub proof fn a_variable_is_read_as_it_stands(variable: Result<String, String>)
    ensures
        variable matches Ok(url) ==> text_result(variable) == Ok::<Seq<char>, Seq<char>>(url@),
        variable matches Err(e) ==> text_result(variable) == Err::<Seq<char>, Seq<char>>(e@),
{
}

/// The words of an error name the field or the variable that it is about, and keep what
/// was said of it.
pub proof fn config_errors_name_their_subject(name: Seq<char>, error: Seq<char>)
    ensures
        ConfigErrorView::ListenAddr(error).message() == "invalid server.listen_addr: "@ + error,
        ConfigErrorView::ClientExtOid(error).message() == error,
        ConfigErrorView::NoConnections.message()
            == "policy.max_connections must be greater than zero"@,
        ConfigErrorView::NotPositive(name).message() == name + " must be greater than zero"@,
        ConfigErrorView::EmptyDatabaseUrl.message() == "policy.database_url must not be empty"@,
        ConfigErrorView::EmptyDatabaseUrlEnv.message()
            == "policy.database_url_env must not be empty"@,
        ConfigErrorView::MissingDatabaseUrl.message()
            == "policy.database_url or policy.database_url_env is required"@,
        ConfigErrorView::TwoDatabaseUrls.message()
            == "set only one of policy.database_url or policy.database_url_env"@,
        (ConfigErrorView::UnreadableVariable { name, error }).message()
            == "reading database URL from $"@ + name + ": "@ + error,
        (ConfigErrorView::EmptyVariable { name }).message() == "database URL from $"@ + name
            + " must not be empty"@,
        ConfigErrorView::NoByteAllowance.message()
            == "rate_limit.bytes_per_window must be greater than zero when rate limiting is enabled"@,
{
}

/// The view of an error is of the same kind and holds the words of the error.
pub proof fn a_config_error_shows_its_words(e: ConfigError)
    ensures
        match e {
            ConfigError::ListenAddr(words) => e@ == ConfigErrorView::ListenAddr(words@),
            ConfigError::ClientExtOid(words) => e@ == ConfigErrorView::ClientExtOid(words@),
            ConfigError::NoConnections => e@ is NoConnections,
            ConfigError::NotPositive(field) => e@ == ConfigErrorView::NotPositive(field@),
            ConfigError::EmptyDatabaseUrl => e@ is EmptyDatabaseUrl,
            ConfigError::EmptyDatabaseUrlEnv => e@ is EmptyDatabaseUrlEnv,
            ConfigError::MissingDatabaseUrl => e@ is MissingDatabaseUrl,
            ConfigError::TwoDatabaseUrls => e@ is TwoDatabaseUrls,
            ConfigError::UnreadableVariable { name: v, error: words } => e@ == (
            ConfigErrorView::UnreadableVariable { name: v@, error: words@ }),
            ConfigError::EmptyVariable { name: v } => e@ == (ConfigErrorView::EmptyVariable {
                name: v@,
            }),
            ConfigError::NoByteAllowance => e@ is NoByteAllowance,
        },
{
}

} // verus!
