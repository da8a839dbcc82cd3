use eas_weather_rs::connect_retry::{ConnectRetry, ConnectStep};
use eas_weather_rs::database::{
    Database, DEFAULT_CONN_ACQUIRE_TIMEOUT_SECS, DEFAULT_CONN_IDLE_TIMEOUT_SECS,
    DEFAULT_CONN_MAX_LIFETIME_SECS, DEFAULT_CONN_MAX_RETRIES, DEFAULT_MAX_CONNECTIONS,
};
use eas_weather_rs::db_conn_string::DbConnectionString;
use eas_weather_rs::log_record::{LogLevel, LogRecord};
use eas_weather_rs::mysql_adaptor::{
    close_pool_record, conn_options_outcome, missing_options_record, mysql_adaptor_report,
    read_conn_options, MySqlConnSummary,
};
use eas_weather_rs::raw_config::ConfigDatabase;

fn lines(records: &[LogRecord]) -> Vec<(LogLevel, String)> {
    records.iter().map(|r| (r.level, r.message.clone())).collect()
}

fn database_with(conn: &str) -> Database {
    let raw = ConfigDatabase {
        conn_url_file: None,
        conn_max_retries: Some(9),
        conn_retry_init_delay_secs: Some(2),
        conn_acquire_timeout_secs: Some(11),
        conn_idle_timeout_secs: Some(12),
        conn_max_lifetime_secs: Some(13),
        max_connections: Some(14),
        min_connections: Some(4),
    };
    let load = Some(DbConnectionString::from_file_contents(Ok(conn.to_string())));
    Database::new(&raw, &load)
}

#[test]
fn retry_waits_double_until_attempts_run_out() {
    let mut retry = ConnectRetry::new(3, 2);
    assert!(retry.may_attempt());
    let (step, recs) = retry.on_failure("refused");
    assert_eq!(step, ConnectStep::RetryAfter(2));
    assert_eq!(
        lines(&recs),
        vec![
            (LogLevel::Warn, "failed to connect to database (attempt 1/3): refused".to_string()),
            (LogLevel::Warn, "database retrying connection in 2 seconds".to_string()),
        ]
    );
    let (step, _) = retry.on_failure("refused");
    assert_eq!(step, ConnectStep::RetryAfter(4));
    assert!(retry.may_attempt());
    let (step, recs) = retry.on_failure("refused");
    assert_eq!(step, ConnectStep::GiveUp);
    assert_eq!(
        lines(&recs),
        vec![
            (LogLevel::Warn, "failed to connect to database (attempt 3/3): refused".to_string()),
            (LogLevel::Error, "database connection retries exhausted all attempts".to_string()),
        ]
    );
    assert!(!retry.may_attempt());
}

#[test]
fn no_attempt_when_no_retries_allowed() {
    let retry = ConnectRetry::new(0, 1);
    assert!(!retry.may_attempt());
}

#[test]
fn success_is_logged() {
    let retry = ConnectRetry::new(1, 1);
    let r = retry.on_success();
    assert_eq!((r.level, r.message.as_str()), (LogLevel::Info, "database pool created successfully"));
}

#[test]
fn backoff_overflow_is_detected() {
    let retry = ConnectRetry::new(5, u64::MAX / 2 + 1);
    assert!(retry.next_backoff_overflows());
    let retry = ConnectRetry::new(5, u64::MAX / 2);
    assert!(!retry.next_backoff_overflows());
}

#[test]
fn default_connection_string_is_read_by_sqlx() {
    let db = Database::new(
        &ConfigDatabase {
            conn_url_file: None,
            conn_max_retries: None,
            conn_retry_init_delay_secs: None,
            conn_acquire_timeout_secs: None,
            conn_idle_timeout_secs: None,
            conn_max_lifetime_secs: None,
            max_connections: None,
            min_connections: None,
        },
        &None,
    );
    let (opts, recs) = read_conn_options(&db);
    assert!(recs.is_empty());
    let opts = opts.expect("default connection string parses");
    assert_eq!(opts.host, "localhost");
    assert_eq!(opts.port, 3306);
    assert_eq!(opts.username, "root");
    assert_eq!(opts.database.as_deref(), Some("eas-weather-rs"));
    assert_eq!(
        lines(&mysql_adaptor_report(&Some(opts), &db)),
        vec![
            (LogLevel::Info, "xsqlx_conn_opt=root@localhost:3306/eas-weather-rs".to_string()),
            (LogLevel::Info, format!("xsqlx_conn_max_retries={}", DEFAULT_CONN_MAX_RETRIES)),
            (LogLevel::Info, "xsqlx_conn_retry_init_delay_secs=1".to_string()),
            (LogLevel::Info, format!("xsqlx_conn_acquire_timeout_secs={}", DEFAULT_CONN_ACQUIRE_TIMEOUT_SECS)),
            (LogLevel::Info, format!("xsqlx_conn_idle_timeout_secs={}", DEFAULT_CONN_IDLE_TIMEOUT_SECS)),
            (LogLevel::Info, format!("xsqlx_conn_max_lifetime_secs={}", DEFAULT_CONN_MAX_LIFETIME_SECS)),
            (LogLevel::Info, "xsqlx_min_connections=1".to_string()),
            (LogLevel::Info, format!("xsqlx_max_connections={}", DEFAULT_MAX_CONNECTIONS)),
        ]
    );
}

#[test]
fn connection_string_without_database_or_port() {
    let db = database_with("mysql://app@db.internal");
    let (opts, _) = read_conn_options(&db);
    let opts = opts.unwrap();
    assert_eq!(opts.port, 3306);
    assert_eq!(opts.database, None);
    assert_eq!(
        lines(&mysql_adaptor_report(&Some(opts), &db))[0],
        (LogLevel::Info, "xsqlx_conn_opt=app@db.internal:3306".to_string())
    );
}

#[test]
fn unreadable_connection_string_is_reported() {
    let db = database_with("not a url");
    let (opts, recs) = read_conn_options(&db);
    assert!(opts.is_none());
    assert_eq!(recs.len(), 1);
    assert_eq!(recs[0].level, LogLevel::Error);
    assert!(recs[0].message.starts_with("unable to parse connection string - error: "));
    assert_eq!(
        lines(&mysql_adaptor_report(&None, &db)),
        vec![
            (LogLevel::Warn, "database MySQL options were not set successfully".to_string()),
            (LogLevel::Info, "xsqlx_conn_max_retries=9".to_string()),
            (LogLevel::Info, "xsqlx_conn_retry_init_delay_secs=2".to_string()),
            (LogLevel::Info, "xsqlx_conn_acquire_timeout_secs=11".to_string()),
            (LogLevel::Info, "xsqlx_conn_idle_timeout_secs=12".to_string()),
            (LogLevel::Info, "xsqlx_conn_max_lifetime_secs=13".to_string()),
            (LogLevel::Info, "xsqlx_min_connections=4".to_string()),
            (LogLevel::Info, "xsqlx_max_connections=14".to_string()),
        ]
    );
}

#[test]
fn parse_outcome_keeps_or_reports() {
    let s = MySqlConnSummary {
        host: "h".into(),
        port: 1,
        username: "u".into(),
        database: None,
    };
    let (kept, recs) = conn_options_outcome(Ok(s));
    assert_eq!(kept.unwrap().host, "h");
    assert!(recs.is_empty());
    let (kept, recs) = conn_options_outcome(Err("boom".into()));
    assert!(kept.is_none());
    assert_eq!(lines(&recs), vec![(LogLevel::Error, "unable to parse connection string - error: boom".to_string())]);
}

#[test]
fn pool_lifecycle_lines() {
    let r = close_pool_record(true);
    assert_eq!((r.level, r.message.as_str()), (LogLevel::Info, "database connection pool to MySQL closed successfully"));
    let r = close_pool_record(false);
    assert_eq!((r.level, r.message.as_str()), (LogLevel::Warn, "database connection pool to MySQL was not initialized"));
    let r = missing_options_record();
    assert_eq!(r.level, LogLevel::Error);
    assert_eq!(r.message, "database MySQL connection options were not initialized successfully");
}

#[test]
fn retry_report_matches_the_failure_lines() {
    let mut retry = ConnectRetry::new(3, 5);
    let preview = lines(&retry.retry_report("refused"));
    assert_eq!(retry.current_backoff(), 5);
    let (_, recs) = retry.on_failure("refused");
    assert_eq!(preview, lines(&recs));
    assert_eq!(retry.current_backoff(), 10);
}
