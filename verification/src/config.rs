//! What the service is configured with.

use vstd::prelude::*;
use std::time::Duration;

verus! {

/// Pooled database connections when the configuration names no number.
pub const DEFAULT_MAX_CONNECTIONS: usize = 5;

/// Seconds a pooled connection may idle when the configuration names no span.
pub const DEFAULT_IDLE_TIMEOUT_SECS: u64 = 30;

/// The port that the service listens on.
pub const LISTEN_PORT: u16 = 3000;

/// Seconds without a request after which a session ends.
pub const SESSION_IDLE_SECS: i64 = 360;

/// Seconds between two sweeps of ended sessions.
pub const SESSION_SWEEP_SECS: u64 = 360;

/// Seconds that a request to the identity provider may take. A request that
/// takes longer has failed.
pub const PROVIDER_TIMEOUT_SECS: u64 = 30;

/// The span of time that lasts the given number of whole seconds.
pub uninterp spec fn seconds(secs: u64) -> Duration;

/// `Duration::from_secs`: the span of exactly that many seconds.
pub assume_specification[ Duration::from_secs ](secs: u64) -> (span: Duration)
    ensures
        span == seconds(secs),
;

/// The whole configuration.
pub struct Config {
    /// Database configuration
    pub database: DbConfig,
    /// Authentication configuration
    pub auth: AuthConfig,
    /// Mail ingestion configuration
    pub ingestion: IngestionConfig,
    /// Tracing configuration
    pub tracing: TracingConfig,
}

/// The identity provider and this service's registration with it. Supplied
/// once, when the process starts.
pub struct AuthConfig {
    /// OpenID issuer
    pub issuer_url: String,
    /// OAuth client id
    pub client_id: String,
    /// OAuth client secret
    pub client_secret: String,
    /// OAuth redirect (callback) url
    pub redirect_url: String,
}

/// The database pool.
pub struct DbConfig {
    /// Connection URL
    pub url: String,
    /// Maximum number of connections to keep in the connection pool
    pub max_connections: usize,
    /// Maximum idle duration for individual connections
    pub idle_timeout: Duration,
}

/// The mail ingestion endpoint.
pub struct IngestionConfig {
    /// The token that an ingestion request has to present
    pub api_token: String,
}

/// Telemetry.
pub struct TracingConfig {
    /// Enable tracing
    pub enabled: bool,
}

/// The pool size used when the configuration names none.
pub fn default_max_db_connections() -> (connections: usize)
    ensures
        connections == DEFAULT_MAX_CONNECTIONS,
{
    DEFAULT_MAX_CONNECTIONS
}

/// The idle timeout used when the configuration names none.
pub fn default_db_idle_timeout() -> (timeout: Duration)
    ensures
        timeout == seconds(DEFAULT_IDLE_TIMEOUT_SECS),
{
    Duration::from_secs(DEFAULT_IDLE_TIMEOUT_SECS)
}

impl DbConfig {
    /// The configuration of a pool at `url` with the default size and timeout.
    pub fn with_defaults(url: String) -> (config: Self)
        ensures
            config.url == url,
            config.max_connections == DEFAULT_MAX_CONNECTIONS,
            config.idle_timeout == seconds(DEFAULT_IDLE_TIMEOUT_SECS),
    {
        DbConfig {
            url,
            max_connections: default_max_db_connections(),
            idle_timeout: default_db_idle_timeout(),
        }
    }

    /// The pool size as the 32-bit number that the pool takes: the low 32 bits
    /// of the configured size.
    pub fn pool_size(&self) -> (size: u32)
        ensures
            size as int == (self.max_connections as int) % 0x1_0000_0000,
    {
        let wide: u64 = self.max_connections as u64;
        let size: u32 = #[verifier::truncate] (wide as u32);
        assert(size == wide % 0x1_0000_0000) by (bit_vector)
            requires
                size == wide as u32,
        ;
        size
    }
}

} // verus!
