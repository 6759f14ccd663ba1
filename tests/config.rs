use container_codes::config::{
    apply_override, env_override, parse_duration, validate_config, DatabaseConfig, EnvOverride,
    RedisConfig, ServerConfig, StaticConfig,
};
use container_codes::error::{ConfigError, Error};
use container_codes::logging::{default_filter, parse_log_format, parse_log_level, LogFormat, LogLevel};
use container_codes::types::{ContainerStatus, JobStatus};

fn invalid(r: Result<u64, Error>) -> (String, String) {
    match r {
        Err(Error::Config(ConfigError::Invalid { key, value })) => (key, value),
        _ => panic!("expected an invalid value"),
    }
}

#[test]
fn durations() {
    assert_eq!(parse_duration("30s").ok(), Some(30));
    assert_eq!(parse_duration("10m").ok(), Some(600));
    assert_eq!(parse_duration("1h").ok(), Some(3600));
    assert_eq!(parse_duration("+5s").ok(), Some(5));
    assert_eq!(parse_duration("0s").ok(), Some(0));
    assert_eq!(invalid(parse_duration("5x")), ("duration".to_string(), "5x".to_string()));
    assert!(parse_duration("s").is_err());
    assert!(parse_duration("").is_err());
    assert!(parse_duration("-5s").is_err());
    assert!(parse_duration("10ms").is_err());
    assert_eq!(parse_duration("18446744073709551615s").ok(), Some(u64::MAX));
    assert!(parse_duration("18446744073709551616s").is_err());
    assert!(parse_duration("18446744073709551615m").is_err());
}

#[test]
fn defaults() {
    let s = StaticConfig::default();
    assert_eq!(s.index_files, vec!["index.html".to_string(), "index.htm".to_string()]);
    assert_eq!(s.root, "./public");
    let server = ServerConfig::default();
    assert_eq!(server.port, 8080);
    assert_eq!(DatabaseConfig::default().connection_timeout, "30s");
    assert_eq!(RedisConfig::default().queue.max_retries, 3);
}

#[test]
fn validation_of_required_settings() {
    let mut server = ServerConfig::default();
    let mut database = DatabaseConfig::default();
    let redis = RedisConfig::default();
    assert!(validate_config(&server, &database, &redis).is_ok());
    server.port = 0;
    match validate_config(&server, &database, &redis) {
        Err(Error::Config(ConfigError::Invalid { key, value })) => {
            assert_eq!(key, "server.port");
            assert_eq!(value, "0");
        }
        _ => panic!("expected an invalid port"),
    }
    server.port = 80;
    server.static_files.index_files.push("../outside.html".to_string());
    match validate_config(&server, &database, &redis) {
        Err(Error::Config(ConfigError::Invalid { key, value })) => {
            assert_eq!(key, "server.static_files.index_files");
            assert_eq!(value, "../outside.html");
        }
        _ => panic!("expected an invalid index file"),
    }
    server.static_files.index_files.pop();
    assert!(validate_config(&server, &database, &redis).is_ok());
    database.url.clear();
    match validate_config(&server, &database, &redis) {
        Err(Error::Config(ConfigError::Missing { key })) => assert_eq!(key, "database.url"),
        _ => panic!("expected a missing url"),
    }
}

#[test]
fn environment_overrides() {
    assert!(matches!(env_override("CONTAINER_CODES_SERVER_PORT", "9090"), Some(EnvOverride::ServerPort(9090))));
    assert!(env_override("CONTAINER_CODES_SERVER_PORT", "70000").is_none());
    assert!(env_override("CONTAINER_CODES_SERVER_PORT", "abc").is_none());
    assert!(env_override("OTHER_SERVER_PORT", "1").is_none());
    assert!(env_override("CONTAINER_CODES_SERVER_WORKERS", "1").is_none());
    match env_override("CONTAINER_CODES_LOGGING_LEVEL", "debug") {
        Some(EnvOverride::LoggingLevel(l)) => assert_eq!(l, "debug"),
        _ => panic!("expected a logging level"),
    }
    let mut server = ServerConfig::default();
    let mut database = DatabaseConfig::default();
    let mut redis = RedisConfig::default();
    let ov = env_override("CONTAINER_CODES_DATABASE_URL", "postgres://db/x").unwrap();
    assert!(apply_override(&mut server, &mut database, &mut redis, ov).is_none());
    assert_eq!(database.url, "postgres://db/x");
    let ov = env_override("CONTAINER_CODES_SERVER_PORT", "1234").unwrap();
    apply_override(&mut server, &mut database, &mut redis, ov);
    assert_eq!(server.port, 1234);
    let ov = env_override("CONTAINER_CODES_REDIS_URL", "redis://r").unwrap();
    apply_override(&mut server, &mut database, &mut redis, ov);
    assert_eq!(redis.url, "redis://r");
}

#[test]
fn log_settings() {
    assert_eq!(parse_log_level("INFO").ok(), Some(LogLevel::Info));
    assert_eq!(parse_log_level("Trace").ok(), Some(LogLevel::Trace));
    match parse_log_level("verbose") {
        Err(Error::Config(ConfigError::Invalid { key, value })) => {
            assert_eq!(key, "logging.level");
            assert_eq!(value, "verbose");
        }
        _ => panic!("expected an invalid level"),
    }
    assert_eq!(parse_log_format("json").ok(), Some(LogFormat::Json));
    assert_eq!(parse_log_format("compact").ok(), Some(LogFormat::Compact));
    assert!(parse_log_format("JSON").is_err());
    assert_eq!(default_filter(LogLevel::Warn), "container_codes=WARN");
}

#[test]
fn error_messages() {
    assert_eq!(Error::config_missing("server.host").message(), "Configuration error: Missing configuration value: server.host");
    assert_eq!(Error::config_invalid("a", "b").message(), "Configuration error: Invalid configuration value for a: b");
    assert_eq!(Error::internal("x").message(), "Internal error: x");
    assert_eq!(Error::internal("x").code(), "INTERNAL_ERROR");
    assert_eq!(Error::auth("x").message(), "Authentication error: x");
    assert_eq!(Error::http("x").code(), "HTTP_ERROR");
    assert_eq!(Error::container("c").message(), "Container error: c");
    assert_eq!(Error::job("j").message(), "Job error: j");
}

#[test]
fn status_names() {
    assert_eq!(ContainerStatus::Running.as_str(), "running");
    assert_eq!(ContainerStatus::Dead.as_str(), "dead");
    assert_eq!(JobStatus::Cancelled.as_str(), "cancelled");
    assert_eq!(JobStatus::Timeout.as_str(), "timeout");
}
