//! Application configuration: its sections, their default values and the
//! rules that a configuration must meet before the application starts.

use vstd::prelude::*;
use vstd::utf8::encode_utf8;
use crate::text::{
    has_prefix, str_equals, str_starts_with, str_to_lowercase, string_from_str,
    lowercase,
};

verus! {

#[derive(Debug, Clone)]
pub struct ServerConfig {
    pub host: String,
    pub port: u16,
}

#[derive(Debug, Clone)]
pub struct DatabaseConfig {
    /// Database type: sqlite, postgres, mysql.
    pub database_type: String,
    /// Database URL.
    pub url: String,
    /// Maximum connections in the pool.
    pub max_connections: u32,
    /// Whether to seed the database (development only).
    pub seed_database: bool,
}

#[derive(Debug, Clone)]
pub struct RedisConfig {
    pub url: String,
}

#[derive(Debug, Clone)]
pub struct JwtConfig {
    pub secret: String,
    pub expiration: String,
}

#[derive(Debug, Clone)]
pub struct StorageConfig {
    pub endpoint: String,
    pub access_key: String,
    pub secret_key: String,
    pub use_ssl: bool,
    pub bucket: String,
}

#[derive(Debug, Clone)]
pub struct SandboxConfig {
    pub enabled: bool,
    pub timeout_seconds: u32,
    pub memory_mb: u32,
    /// CPU shares for a container (relative weight).
    pub cpu_shares: i64,
    /// Maximum number of processes in a container.
    pub pids_limit: i64,
    /// Whether containers have network access.
    pub network_enabled: bool,
    /// Maximum output bytes captured from stdout and stderr.
    pub max_output_bytes: usize,
}

#[derive(Debug, Clone)]
pub struct LogConfig {
    pub level: String,
}

#[derive(Debug, Clone)]
pub struct StripeConfig {
    pub secret_key: String,
    pub webhook_secret: String,
    pub api_version: Option<String>,
    pub test_mode: bool,
}

#[derive(Debug, Clone)]
pub struct SmtpConfig {
    pub host: String,
    pub port: u16,
    pub username: String,
    pub password: String,
    pub from_address: String,
    pub from_name: String,
    pub enabled: bool,
}

#[derive(Debug, Clone)]
pub struct RateLimitConfig {
    pub unauthenticated_rpm: u32,
    pub authenticated_rpm: u32,
    pub api_key_rpm: u32,
}

#[derive(Debug, Clone)]
pub struct AppConfig {
    pub server: ServerConfig,
    pub database: DatabaseConfig,
    pub redis: RedisConfig,
    pub jwt: JwtConfig,
    pub storage: StorageConfig,
    pub sandbox: SandboxConfig,
    pub log: LogConfig,
    pub stripe: StripeConfig,
    pub smtp: SmtpConfig,
    pub rate_limit: RateLimitConfig,
}

/// The error of loading or checking a configuration.
#[derive(Debug)]
pub enum ConfigError {
    Message(String),
}

/// Whether the lower-case form of a database type names a supported database.
pub open spec fn supported_database(lower: Seq<char>) -> bool {
    lower == "sqlite"@ || lower == "postgres"@ || lower == "postgresql"@ || lower == "mysql"@
}

/// The message of the first rule that `c` breaks, checked in this order: the server
/// port, the database type, the JWT secret (in production), the sandbox limits (when
/// the sandbox is enabled) and the Stripe keys (in production); `None` where it breaks
/// none.
pub open spec fn validation_failure(c: AppConfig, production: bool) -> Option<Seq<char>> {
    if c.server.port == 0 {
        Some("Server port cannot be 0"@)
    } else if !supported_database(lowercase(c.database.database_type@)) {
        Some("Unsupported database type: "@ + c.database.database_type@)
    } else if production && c.jwt.secret@ == "dev_secret_key_change_in_production"@ {
        Some("JWT secret must be changed in production!"@)
    } else if production && encode_utf8(c.jwt.secret@).len() < 32 {
        Some("JWT secret must be at least 32 characters in production"@)
    } else if c.sandbox.enabled && c.sandbox.timeout_seconds == 0 {
        Some("Sandbox timeout must be greater than 0"@)
    } else if c.sandbox.enabled && c.sandbox.memory_mb < 64 {
        Some("Sandbox memory must be at least 64MB"@)
    } else if c.sandbox.enabled && c.sandbox.cpu_shares < 2 {
        Some("Sandbox cpu_shares must be at least 2"@)
    } else if c.sandbox.enabled && c.sandbox.pids_limit < 16 {
        Some("Sandbox pids_limit must be at least 16"@)
    } else if c.sandbox.enabled && c.sandbox.max_output_bytes < 1024 {
        Some("Sandbox max_output_bytes must be at least 1024"@)
    } else if production && has_prefix(c.stripe.secret_key@, "sk_test_"@) {
        Some("Stripe test key cannot be used in production!"@)
    } else if production && c.stripe.webhook_secret@ == "whsec_placeholder"@ {
        Some("Stripe webhook secret must be set in production!"@)
    } else {
        None
    }
}

/// Whether the value of the `ENVIRONMENT` variable selects production.
pub open spec fn is_production_env(environment: Seq<char>) -> bool {
    environment == "production"@
}

fn fail(msg: &str) -> (r: Result<(), ConfigError>)
    ensures
        r matches Err(ConfigError::Message(m)) && m@ == msg@,
{
    Err(ConfigError::Message(string_from_str(msg)))
}

impl AppConfig {
    /// The configuration that applies where the environment sets nothing.
    pub fn defaults() -> (c: Self)
        ensures
            c.server.host@ == "0.0.0.0"@,
            c.server.port == 8080,
            c.database.database_type@ == "sqlite"@,
            c.database.url@ == ":memory:"@,
            c.database.max_connections == 10,
            !c.database.seed_database,
            c.redis.url@ == "redis://localhost:6379"@,
            c.jwt.secret@ == "dev_secret_key_change_in_production"@,
            c.jwt.expiration@ == "24h"@,
            c.storage.endpoint@ == "localhost:9000"@,
            c.storage.access_key@ == "minioadmin"@,
            c.storage.secret_key@ == "minioadmin"@,
            !c.storage.use_ssl,
            c.storage.bucket@ == "evolith"@,
            !c.sandbox.enabled,
            c.sandbox.timeout_seconds == 30,
            c.sandbox.memory_mb == 256,
            c.sandbox.cpu_shares == 512,
            c.sandbox.pids_limit == 256,
            !c.sandbox.network_enabled,
            c.sandbox.max_output_bytes == 10485760,
            c.log.level@ == "info"@,
            c.stripe.secret_key@ == "sk_test_placeholder"@,
            c.stripe.webhook_secret@ == "whsec_placeholder"@,
            c.stripe.api_version is None,
            c.stripe.test_mode,
            c.smtp.host@ == "localhost"@,
            c.smtp.port == 1025,
            c.smtp.username@ == ""@,
            c.smtp.password@ == ""@,
            c.smtp.from_address@ == "noreply@evolith.io"@,
            c.smtp.from_name@ == "Evolith"@,
            !c.smtp.enabled,
            c.rate_limit.unauthenticated_rpm == 30,
            c.rate_limit.authenticated_rpm == 300,
            c.rate_limit.api_key_rpm == 1000,
    {
        AppConfig {
            server: ServerConfig { host: string_from_str("0.0.0.0"), port: 8080 },
            database: DatabaseConfig {
                database_type: string_from_str("sqlite"),
                url: string_from_str(":memory:"),
                max_connections: 10,
                seed_database: false,
            },
            redis: RedisConfig { url: string_from_str("redis://localhost:6379") },
            jwt: JwtConfig {
                secret: string_from_str("dev_secret_key_change_in_production"),
                expiration: string_from_str("24h"),
            },
            storage: StorageConfig {
                endpoint: string_from_str("localhost:9000"),
                access_key: string_from_str("minioadmin"),
                secret_key: string_from_str("minioadmin"),
                use_ssl: false,
                bucket: string_from_str("evolith"),
            },
            sandbox: SandboxConfig {
                enabled: false,
                timeout_seconds: 30,
                memory_mb: 256,
                cpu_shares: 512,
                pids_limit: 256,
                network_enabled: false,
                max_output_bytes: 10485760,
            },
            log: LogConfig { level: string_from_str("info") },
            stripe: StripeConfig {
                secret_key: string_from_str("sk_test_placeholder"),
                webhook_secret: string_from_str("whsec_placeholder"),
                api_version: None,
                test_mode: true,
            },
            smtp: SmtpConfig {
                host: string_from_str("localhost"),
                port: 1025,
                username: string_from_str(""),
                password: string_from_str(""),
                from_address: string_from_str("noreply@evolith.io"),
                from_name: string_from_str("Evolith"),
                enabled: false,
            },
            rate_limit: RateLimitConfig {
                unauthenticated_rpm: 30,
                authenticated_rpm: 300,
                api_key_rpm: 1000,
            },
        }
    }

    /// Checks the configuration; `production` says whether the application runs in
    /// production, where the JWT secret and the Stripe keys must be real.
    pub fn validate(&self, production: bool) -> (r: Result<(), ConfigError>)
        ensures
            match r {
                Ok(()) => validation_failure(*self, production) is None,
                Err(ConfigError::Message(m)) => validation_failure(*self, production) == Some(
                    m@,
                ),
            },
    {
        if self.server.port == 0 {
            return fail("Server port cannot be 0");
        }
        let lower = str_to_lowercase(self.database.database_type.as_str());
        let l = lower.as_str();
        if !(str_equals(l, "sqlite") || str_equals(l, "postgres") || str_equals(l, "postgresql")
            || str_equals(l, "mysql")) {
            let mut msg = string_from_str("Unsupported database type: ");
            msg.append(self.database.database_type.as_str());
            return Err(ConfigError::Message(msg));
        }
        if production {
            if str_equals(self.jwt.secret.as_str(), "dev_secret_key_change_in_production") {
                return fail("JWT secret must be changed in production!");
            }
            if self.jwt.secret.as_str().as_bytes().len() < 32 {
                return fail("JWT secret must be at least 32 characters in production");
            }
        }
        if self.sandbox.enabled {
            if self.sandbox.timeout_seconds == 0 {
                return fail("Sandbox timeout must be greater than 0");
            }
            if self.sandbox.memory_mb < 64 {
                return fail("Sandbox memory must be at least 64MB");
            }
            if self.sandbox.cpu_shares < 2 {
                return fail("Sandbox cpu_shares must be at least 2");
            }
            if self.sandbox.pids_limit < 16 {
                return fail("Sandbox pids_limit must be at least 16");
            }
            if self.sandbox.max_output_bytes < 1024 {
                return fail("Sandbox max_output_bytes must be at least 1024");
            }
        }
        if production {
            if str_starts_with(self.stripe.secret_key.as_str(), "sk_test_") {
                return fail("Stripe test key cannot be used in production!");
            }
            if str_equals(self.stripe.webhook_secret.as_str(), "whsec_placeholder") {
                return fail("Stripe webhook secret must be set in production!");
            }
        }
        Ok(())
    }

    /// Accepts a configuration loaded from the environment, where the `ENVIRONMENT`
    /// variable has the value `environment` (empty where it is unset), if it meets the
    /// rules of `validate`.
    pub fn from_env(loaded: AppConfig, environment: &str) -> (r: Result<AppConfig, ConfigError>)
        ensures
            match r {
                Ok(c) => c == loaded && validation_failure(loaded, is_production_env(environment@))
                    is None,
                Err(ConfigError::Message(m)) => validation_failure(
                    loaded,
                    is_production_env(environment@),
                ) == Some(m@),
            },
    {
        let production = str_equals(environment, "production");
        match loaded.validate(production) {
            Ok(()) => Ok(loaded),
            Err(e) => Err(e),
        }
    }

    /// Whether the application runs in development mode, where `ENVIRONMENT` has the
    /// value `environment` (empty where it is unset).
    pub fn is_development(&self, environment: &str) -> (r: bool)
        ensures
            r == !is_production_env(environment@),
    {
        !str_equals(environment, "production")
    }

    /// Whether the application runs in production mode.
    pub fn is_production(&self, environment: &str) -> (r: bool)
        ensures
            r == is_production_env(environment@),
    {
        !self.is_development(environment)
    }
}

/// The database engines that a configuration can select.
#[derive(Debug, Clone, Copy, PartialEq, Eq, Structural)]
pub enum DatabaseBackend {
    Sqlite,
    Postgres,
}

/// The engine that a database type selects (case-insensitively): SQLite for `sqlite`,
/// PostgreSQL for `postgres` and `postgresql`. MySQL is recognised but has no
/// repositories, and any other type is unsupported.
pub fn database_backend(config: &DatabaseConfig) -> (r: Result<DatabaseBackend, ConfigError>)
    ensures
        ({
            let lower = lowercase(config.database_type@);
            if lower == "sqlite"@ {
                r == Ok::<DatabaseBackend, ConfigError>(DatabaseBackend::Sqlite)
            } else if lower == "postgres"@ || lower == "postgresql"@ {
                r == Ok::<DatabaseBackend, ConfigError>(DatabaseBackend::Postgres)
            } else if lower == "mysql"@ {
                r matches Err(ConfigError::Message(m)) && m@
                    == "MySQL repositories are not implemented; use sqlite for development or postgres for production"@
            } else {
                r matches Err(ConfigError::Message(m)) && m@ == "Unsupported database type: "@
                    + config.database_type@
            }
        }),
{
    let lower = str_to_lowercase(config.database_type.as_str());
    let l = lower.as_str();
    if str_equals(l, "sqlite") {
        Ok(DatabaseBackend::Sqlite)
    } else if str_equals(l, "postgres") || str_equals(l, "postgresql") {
        Ok(DatabaseBackend::Postgres)
    } else if str_equals(l, "mysql") {
        Err(
            ConfigError::Message(
                string_from_str(
                    "MySQL repositories are not implemented; use sqlite for development or postgres for production",
                ),
            ),
        )
    } else {
        let mut m = string_from_str("Unsupported database type: ");
        m.append(config.database_type.as_str());
        Err(ConfigError::Message(m))
    }
}

/// A configuration that passes the checks never selects a database type outside the
/// supported ones, so the pool can always be chosen for it (MySQL aside).
pub proof fn law_valid_config_has_known_database(c: AppConfig, production: bool)
    requires
        validation_failure(c, production) is None,
    ensures
        supported_database(lowercase(c.database.database_type@)),
{
}

/// The production checks only add to those of development: a configuration that
/// passes in production passes in development too.
pub proof fn law_production_is_stricter(c: AppConfig)
    requires
        validation_failure(c, true) is None,
    ensures
        validation_failure(c, false) is None,
{
}

} // verus!
