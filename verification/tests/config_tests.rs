use evolith::config::{database_backend, AppConfig, ConfigError, DatabaseBackend, DatabaseConfig};

fn message(r: Result<(), ConfigError>) -> String {
    match r {
        Err(ConfigError::Message(m)) => m,
        Ok(()) => panic!("expected an error"),
    }
}

fn production_ready() -> AppConfig {
    let mut c = AppConfig::defaults();
    c.jwt.secret = "0123456789abcdef0123456789abcdef".to_string();
    c.stripe.secret_key = "sk_live_real".to_string();
    c.stripe.webhook_secret = "whsec_real".to_string();
    c
}

#[test]
fn defaults_pass_in_development_only() {
    let c = AppConfig::defaults();
    assert_eq!(c.server.port, 8080);
    assert_eq!(c.database.database_type, "sqlite");
    assert_eq!(c.jwt.expiration, "24h");
    assert_eq!(c.smtp.port, 1025);
    assert_eq!(c.rate_limit.api_key_rpm, 1000);
    assert!(c.validate(false).is_ok());
    assert_eq!(message(c.validate(true)), "JWT secret must be changed in production!");
}

#[test]
fn checks_come_in_order() {
    let mut c = AppConfig::defaults();
    c.server.port = 0;
    c.database.database_type = "oracle".to_string();
    assert_eq!(message(c.validate(false)), "Server port cannot be 0");
    c.server.port = 1;
    assert_eq!(message(c.validate(false)), "Unsupported database type: oracle");
    c.database.database_type = "PostgreSQL".to_string();
    assert!(c.validate(false).is_ok());
}

#[test]
fn production_needs_real_secrets() {
    let mut c = production_ready();
    assert!(c.validate(true).is_ok());
    c.jwt.secret = "short".to_string();
    assert_eq!(
        message(c.validate(true)),
        "JWT secret must be at least 32 characters in production"
    );
    assert!(c.validate(false).is_ok());
    let mut c = production_ready();
    c.stripe.secret_key = "sk_test_abc".to_string();
    assert_eq!(message(c.validate(true)), "Stripe test key cannot be used in production!");
    let mut c = production_ready();
    c.stripe.webhook_secret = "whsec_placeholder".to_string();
    assert_eq!(message(c.validate(true)), "Stripe webhook secret must be set in production!");
}

#[test]
fn sandbox_limits_apply_only_when_enabled() {
    let mut c = AppConfig::defaults();
    assert!(!c.sandbox.enabled);
    c.sandbox.memory_mb = 63;
    assert!(c.validate(false).is_ok());
    c.sandbox.enabled = true;
    assert_eq!(message(c.validate(false)), "Sandbox memory must be at least 64MB");
    c.sandbox.memory_mb = 64;
    c.sandbox.timeout_seconds = 0;
    assert_eq!(message(c.validate(false)), "Sandbox timeout must be greater than 0");
    c.sandbox.timeout_seconds = 1;
    c.sandbox.cpu_shares = 1;
    assert_eq!(message(c.validate(false)), "Sandbox cpu_shares must be at least 2");
    c.sandbox.cpu_shares = 2;
    c.sandbox.pids_limit = 15;
    assert_eq!(message(c.validate(false)), "Sandbox pids_limit must be at least 16");
    c.sandbox.pids_limit = 16;
    c.sandbox.max_output_bytes = 1023;
    assert_eq!(message(c.validate(false)), "Sandbox max_output_bytes must be at least 1024");
    c.sandbox.enabled = false;
    assert!(c.validate(false).is_ok());
}

#[test]
fn environment_selects_the_rules() {
    let c = AppConfig::defaults();
    assert!(c.is_development(""));
    assert!(c.is_development("staging"));
    assert!(c.is_production("production"));
    assert!(AppConfig::from_env(AppConfig::defaults(), "development").is_ok());
    match AppConfig::from_env(AppConfig::defaults(), "production") {
        Err(ConfigError::Message(m)) => assert_eq!(m, "JWT secret must be changed in production!"),
        Ok(_) => panic!("defaults must not pass in production"),
    }
    let loaded = AppConfig::from_env(production_ready(), "production").expect("valid");
    assert_eq!(loaded.stripe.secret_key, "sk_live_real");
}

fn db(kind: &str) -> DatabaseConfig {
    DatabaseConfig {
        database_type: kind.to_string(),
        url: ":memory:".to_string(),
        max_connections: 1,
        seed_database: false,
    }
}

#[test]
fn mysql_fails_before_opening_pool() {
    match database_backend(&db("MySQL")) {
        Err(ConfigError::Message(m)) => assert!(m.starts_with("MySQL repositories are not implemented")),
        other => panic!("unexpected {:?}", other),
    }
    assert_eq!(database_backend(&db("SQLite")).ok(), Some(DatabaseBackend::Sqlite));
    assert_eq!(database_backend(&db("postgres")).ok(), Some(DatabaseBackend::Postgres));
    assert_eq!(database_backend(&db("postgresql")).ok(), Some(DatabaseBackend::Postgres));
    match database_backend(&db("mongo")) {
        Err(ConfigError::Message(m)) => assert_eq!(m, "Unsupported database type: mongo"),
        other => panic!("unexpected {:?}", other),
    }
}
