use std::cell::RefCell;

use eas_weather_rs::config_input::{config_env_entry, config_file_or_default, replace_dunders};
use eas_weather_rs::config_issue::ConfigIssue;
use eas_weather_rs::crate_name::crate_name_matches;
use eas_weather_rs::database::{
    Database, DEFAULT_CONN_ACQUIRE_TIMEOUT_SECS, DEFAULT_CONN_IDLE_TIMEOUT_SECS,
    DEFAULT_CONN_MAX_LIFETIME_SECS, DEFAULT_CONN_MAX_RETRIES, DEFAULT_MAX_CONNECTIONS,
};
use eas_weather_rs::db_conn_retry_init_delay_secs::DbConnRetryInitDelaySecs;
use eas_weather_rs::db_conn_string::{DbConnectionString, DbConnectionStringError};
use eas_weather_rs::db_min_connections::DbMinConnections;
use eas_weather_rs::log_record::{LogLevel, LogRecord};
use eas_weather_rs::logging::Logging;
use eas_weather_rs::logging_format::{LoggingFormat, LoggingFormatError, LoggingFormatType};
use eas_weather_rs::logging_trace_level::{
    LoggingTraceLevel, LoggingTraceLevelError, LoggingTraceLevelType,
};
use eas_weather_rs::ports::LoggingRepo;
use eas_weather_rs::raw_config::{
    layer_config, merge_config, Config, ConfigDatabase, ConfigLogging, ConfigWebserver,
};
use eas_weather_rs::webserver::{
    webserver_config_report, Webserver, DEFAULT_JWT_ACCESS_TOKEN_EXPIRY_SECS, DEFAULT_PORT,
    DEFAULT_SHUTDOWN_TIMEOUT_SECS,
};
use eas_weather_rs::webserver_jwt_key::{WebserverJwtKey, WebserverJwtKeyError};

fn raw_db() -> ConfigDatabase {
    ConfigDatabase {
        conn_url_file: None,
        conn_max_retries: None,
        conn_retry_init_delay_secs: None,
        conn_acquire_timeout_secs: None,
        conn_idle_timeout_secs: None,
        conn_max_lifetime_secs: None,
        max_connections: None,
        min_connections: None,
    }
}

fn lines(records: &[LogRecord]) -> Vec<(LogLevel, String)> {
    records.iter().map(|r| (r.level, r.message.clone())).collect()
}

struct Recorder(RefCell<Vec<(LogLevel, String)>>, Logging);

impl LoggingRepo for Recorder {
    fn spec_logging_conf(&self) -> Logging {
        self.1
    }
    fn new(conf: &Logging) -> Self {
        Recorder(RefCell::new(Vec::new()), *conf)
    }
    fn info(&self, _m: &str, message: &str) {
        self.0.borrow_mut().push((LogLevel::Info, message.to_string()));
    }
    fn error(&self, _m: &str, message: &str) {
        self.0.borrow_mut().push((LogLevel::Error, message.to_string()));
    }
    fn debug(&self, _m: &str, message: &str) {
        self.0.borrow_mut().push((LogLevel::Debug, message.to_string()));
    }
    fn warn(&self, _m: &str, message: &str) {
        self.0.borrow_mut().push((LogLevel::Warn, message.to_string()));
    }
    fn trace(&self, _m: &str, message: &str) {
        self.0.borrow_mut().push((LogLevel::Trace, message.to_string()));
    }
    fn log_conf_validation(&self, _conf: &Logging) {}
}

#[test]
fn logging_format_parses_known_names() {
    assert_eq!(LoggingFormat::new("json").unwrap().format_type(), LoggingFormatType::Json);
    assert_eq!(LoggingFormat::new("  text\n").unwrap().format_type(), LoggingFormatType::Text);
    assert_eq!(LoggingFormat::new("json").unwrap().as_str(), "json");
    assert_eq!(LoggingFormat::default().format_type(), LoggingFormatType::Text);
}

#[test]
fn logging_format_rejects_empty_and_unknown() {
    match LoggingFormat::new("   ") {
        Err(e @ LoggingFormatError::EmptyType(_)) => {
            assert_eq!(e.message(), "empty log format type was specified")
        }
        _ => panic!("expected EmptyType"),
    }
    match LoggingFormat::new(" yaml ") {
        Err(LoggingFormatError::UnknownFormat(s)) => assert_eq!(s, "yaml"),
        _ => panic!("expected UnknownFormat"),
    }
    assert!(LoggingFormat::new("JSON").is_err());
}

#[test]
fn trace_level_parses_every_level() {
    let cases = [
        ("error", LoggingTraceLevelType::Error),
        ("warn", LoggingTraceLevelType::Warn),
        ("info", LoggingTraceLevelType::Info),
        ("debug", LoggingTraceLevelType::Debug),
        ("trace", LoggingTraceLevelType::Trace),
    ];
    for (raw, t) in cases {
        let level = LoggingTraceLevel::new(raw).unwrap();
        assert_eq!(level.trace_level_type(), t);
        assert_eq!(level.as_str(), raw);
        assert_eq!(LoggingTraceLevel::new(level.as_str()).unwrap().trace_level_type(), t);
    }
    assert_eq!(LoggingTraceLevel::default().trace_level_type(), LoggingTraceLevelType::Info);
}

#[test]
fn trace_level_rejects_empty_and_unknown() {
    assert!(matches!(LoggingTraceLevel::new(""), Err(LoggingTraceLevelError::EmptyTraceLevel(_))));
    match LoggingTraceLevel::new("verbose") {
        Err(LoggingTraceLevelError::UnknownTraceLevel(s)) => assert_eq!(s, "verbose"),
        _ => panic!("expected UnknownTraceLevel"),
    }
}

#[test]
fn logging_takes_defaults_for_missing_or_bad_settings() {
    let l = Logging::new(&ConfigLogging { format: None, trace_level: Some("nope".into()) });
    assert_eq!(l.format.format_type(), LoggingFormatType::Text);
    assert_eq!(l.trace_level.trace_level_type(), LoggingTraceLevelType::Info);
    let l = Logging::new(&ConfigLogging { format: Some("json".into()), trace_level: Some(" debug ".into()) });
    assert_eq!(l.format.format_type(), LoggingFormatType::Json);
    assert_eq!(l.trace_level.trace_level_type(), LoggingTraceLevelType::Debug);
}

#[test]
fn logging_report_names_each_problem() {
    let raw = ConfigLogging { format: Some("yaml".into()), trace_level: None };
    let l = Logging::new(&raw);
    let report = lines(&l.raw_logging_config_report(&raw));
    assert_eq!(
        report,
        vec![
            (LogLevel::Warn, "config logging format of unknown type `yaml`, setting value to `text`".to_string()),
            (LogLevel::Warn, "config logging trace level was not specified, setting value to `info`".to_string()),
        ]
    );
    let raw = ConfigLogging { format: Some("json".into()), trace_level: Some("warn".into()) };
    assert!(Logging::new(&raw).raw_logging_config_report(&raw).is_empty());
}

#[test]
fn logging_issues_list_not_specified_and_invalid() {
    let raw = ConfigLogging { format: None, trace_level: Some("loud".into()) };
    let issues = Logging::raw_logging_config_issues(&raw);
    assert_eq!(issues.len(), 2);
    match &issues[0] {
        ConfigIssue::NotSpecified { key, default } => {
            assert_eq!(*key, "logging.format");
            assert_eq!(default, "text");
        }
        _ => panic!("expected NotSpecified"),
    }
    match &issues[1] {
        ConfigIssue::Invalid { key, value, default } => {
            assert_eq!(*key, "logging.trace_level");
            assert_eq!(value, "loud");
            assert_eq!(default, "info");
        }
        _ => panic!("expected Invalid"),
    }
}

#[test]
fn validate_raw_logging_config_emits_the_report() {
    let raw = ConfigLogging { format: Some("".into()), trace_level: Some("trace".into()) };
    let l = Logging::new(&raw);
    let rec = Recorder(RefCell::new(Vec::new()), l);
    l.validate_raw_logging_config(&rec, &raw);
    assert_eq!(
        rec.0.into_inner(),
        vec![(LogLevel::Warn, "config logging format type is empty, setting to `text`".to_string())]
    );
}

#[test]
fn connection_string_file_rules() {
    assert!(matches!(DbConnectionString::file_path("  "), Err(DbConnectionStringError::EmptyFilePath(_))));
    assert_eq!(DbConnectionString::file_path(" db.pem ").unwrap(), "db.pem");
    let c = DbConnectionString::from_file_contents(Ok("  mysql://u@h:1/d \n".into())).unwrap();
    assert_eq!(c.get(), "mysql://u@h:1/d");
    match DbConnectionString::from_file_contents(Ok("\n\t".into())) {
        Err(e @ DbConnectionStringError::EmptyConnectionString(_)) => {
            assert_eq!(e.message(), "database connection string was empty")
        }
        _ => panic!("expected EmptyConnectionString"),
    }
    match DbConnectionString::from_file_contents(Err("No such file".into())) {
        Err(DbConnectionStringError::BadFileLoad(m)) => assert_eq!(m, "No such file"),
        _ => panic!("expected BadFileLoad"),
    }
    assert_eq!(DbConnectionString::default().get(), "mysql://root@localhost:3306/eas-weather-rs");
}

#[test]
fn jwt_key_file_rules_and_masking() {
    assert_eq!(WebserverJwtKey::file_path("   "), None);
    assert_eq!(WebserverJwtKey::file_path(" jwt.pem"), Some("jwt.pem".to_string()));
    let k = WebserverJwtKey::from_file_contents(Ok(" abc\n".into())).unwrap();
    assert_eq!(k.get(), Some("abc"));
    assert_eq!(k.to_display_string(), "***");
    let k = WebserverJwtKey::from_file_contents(Ok("\n".into())).unwrap();
    assert_eq!(k.get(), None);
    assert_eq!(k.to_display_string(), "<None>");
    match WebserverJwtKey::from_file_contents(Err("denied".into())) {
        Err(e @ WebserverJwtKeyError::BadFileLoad(_)) => {
            assert_eq!(e.message(), "database connection string could not be loaded from file")
        }
        _ => panic!("expected BadFileLoad"),
    }
    assert_eq!(WebserverJwtKey::default().to_display_string(), "<None>");
}

#[test]
fn webserver_report_masks_the_key() {
    let key = WebserverJwtKey::from_file_contents(Ok("secret".into())).unwrap();
    let api = WebserverJwtKey::from_file_contents(Ok("k3y".into())).unwrap();
    let raw = ConfigWebserver {
        hostname: Some("0.0.0.0".into()),
        port: Some(3000),
        base_path: Some("/api".into()),
        shutdown_timeout_secs: None,
        api_key_file: Some("api.key".into()),
        jwt_key_file: Some("jwt.key".into()),
        jwt_access_token_expiry_secs: Some(900),
        default_page_limit: None,
        page_limit_max: None,
    };
    let conf = Webserver::new(&raw, api, key);
    let axum = lines(&webserver_config_report("axum", &conf, false));
    assert_eq!(
        axum,
        vec![
            (LogLevel::Info, "axum_hostname=0.0.0.0".to_string()),
            (LogLevel::Info, "axum_port=3000".to_string()),
            (LogLevel::Info, "axum_base_path=/api".to_string()),
            (LogLevel::Info, "axum_shutdown_timeout_secs=30".to_string()),
            (LogLevel::Info, "axum_api_key=***".to_string()),
            (LogLevel::Info, "axum_jwt_key=******".to_string()),
        ]
    );
    let poem = lines(&webserver_config_report("poem", &conf, true));
    assert_eq!(poem.len(), 7);
    assert_eq!(poem[6], (LogLevel::Info, "poem_jwt_access_token_expiry_secs=900".to_string()));
}

#[test]
fn webserver_takes_defaults_for_absent_settings() {
    let raw = ConfigWebserver {
        hostname: None,
        port: None,
        base_path: None,
        shutdown_timeout_secs: None,
        api_key_file: None,
        jwt_key_file: None,
        jwt_access_token_expiry_secs: None,
        default_page_limit: None,
        page_limit_max: None,
    };
    let conf = Webserver::new(&raw, WebserverJwtKey::default(), WebserverJwtKey::default());
    assert_eq!(conf.hostname, "localhost");
    assert_eq!(conf.port, DEFAULT_PORT);
    assert_eq!(conf.base_path, None);
    assert_eq!(conf.shutdown_timeout_secs, DEFAULT_SHUTDOWN_TIMEOUT_SECS);
    assert_eq!(conf.jwt_access_token_expiry_secs, DEFAULT_JWT_ACCESS_TOKEN_EXPIRY_SECS);
    let report = lines(&webserver_config_report("axum", &conf, false));
    assert_eq!(report[2], (LogLevel::Info, "axum_base_path=<None>".to_string()));
    assert_eq!(report[4], (LogLevel::Info, "axum_api_key=<None>".to_string()));
}

#[test]
fn database_report_warns_for_each_absent_setting() {
    let mut raw = raw_db();
    raw.conn_retry_init_delay_secs = Some(1);
    raw.min_connections = Some(1);
    let db = Database::new(&raw, &None);
    let report = lines(&db.raw_database_config_report(&raw, &None));
    let expected: Vec<(LogLevel, String)> = vec![
        "config database connection string file was not specified, setting database connection string to `mysql://root@localhost:3306/eas-weather-rs`".to_string(),
        format!("config database connection max retries was not specified, setting to default `{}`", DEFAULT_CONN_MAX_RETRIES),
        format!("config database connection acquire timeout seconds was not specified, setting to default `{}`", DEFAULT_CONN_ACQUIRE_TIMEOUT_SECS),
        format!("config database connection idle timeout seconds was not specified, setting to default `{}`", DEFAULT_CONN_IDLE_TIMEOUT_SECS),
        format!("config database connection max lifetime seconds was not specified, setting to default `{}`", DEFAULT_CONN_MAX_LIFETIME_SECS),
        format!("config database max connections was not specified, setting to default `{}`", DEFAULT_MAX_CONNECTIONS),
    ]
    .into_iter()
    .map(|m| (LogLevel::Warn, m))
    .collect();
    assert_eq!(report, expected);
}

#[test]
fn database_report_for_blank_connection_file_path() {
    let mut raw = raw_db();
    raw.conn_url_file = Some("   ".into());
    raw.conn_retry_init_delay_secs = Some(1);
    raw.min_connections = Some(1);
    let load = Some(DbConnectionString::file_path("   ").map(|_| DbConnectionString::default()));
    let db = Database::new(&raw, &load);
    let report = lines(&db.raw_database_config_report(&raw, &load));
    assert_eq!(report.len(), 7);
    assert!(report.iter().all(|(l, _)| *l == LogLevel::Warn));
    assert_eq!(report[0].1, "config database connection file path was empty");
    assert_eq!(
        report[1].1,
        "config database connection string will be set to `mysql://root@localhost:3306/eas-weather-rs`"
    );
    assert!(report[2].1.starts_with("config database connection max retries was not specified"));
    assert!(report[6].1.starts_with("config database max connections was not specified"));
}

#[test]
fn database_new_fills_every_setting() {
    let mut raw = raw_db();
    raw.conn_url_file = Some("  ".into());
    raw.conn_retry_init_delay_secs = Some(7);
    raw.min_connections = Some(3);
    let load = Some(DbConnectionString::file_path("  ").map(|_| DbConnectionString::default()));
    let db = Database::new(&raw, &load);
    assert_eq!(db.conn_string.get(), "mysql://root@localhost:3306/eas-weather-rs");
    assert_eq!(db.conn_retry_init_delay_secs.get(), 7);
    assert_eq!(db.min_connections.get(), 3);
    assert_eq!(db.conn_max_retries, DEFAULT_CONN_MAX_RETRIES);
    assert_eq!(db.conn_acquire_timeout_secs, DEFAULT_CONN_ACQUIRE_TIMEOUT_SECS);
    assert_eq!(db.conn_idle_timeout_secs, DEFAULT_CONN_IDLE_TIMEOUT_SECS);
    assert_eq!(db.conn_max_lifetime_secs, DEFAULT_CONN_MAX_LIFETIME_SECS);
    assert_eq!(db.max_connections, DEFAULT_MAX_CONNECTIONS);
    raw.conn_max_retries = Some(2);
    raw.conn_acquire_timeout_secs = Some(4);
    raw.conn_idle_timeout_secs = Some(5);
    raw.conn_max_lifetime_secs = Some(6);
    raw.max_connections = Some(8);
    let db = Database::new(&raw, &None);
    assert_eq!(
        (db.conn_max_retries, db.conn_acquire_timeout_secs, db.conn_idle_timeout_secs, db.conn_max_lifetime_secs, db.max_connections),
        (2, 4, 5, 6, 8)
    );
}

#[test]
fn database_defaults_and_values() {
    let db = Database::new(&raw_db(), &None);
    assert_eq!(db.conn_string.get(), "mysql://root@localhost:3306/eas-weather-rs");
    assert_eq!(db.conn_retry_init_delay_secs.get(), 1);
    assert_eq!(db.min_connections.get(), 1);
    let mut raw = raw_db();
    raw.conn_retry_init_delay_secs = Some(7);
    raw.min_connections = Some(3);
    let load = Some(DbConnectionString::from_file_contents(Ok("mysql://a@b:1/c".into())));
    let db = Database::new(&raw, &load);
    assert_eq!(db.conn_string.get(), "mysql://a@b:1/c");
    assert_eq!(db.conn_retry_init_delay_secs.get(), 7);
    assert_eq!(db.min_connections.get(), 3);
    let load = Some(DbConnectionString::from_file_contents(Ok("  ".into())));
    let db = Database::new(&raw, &load);
    assert_eq!(db.conn_string.get(), "mysql://root@localhost:3306/eas-weather-rs");
}

#[test]
fn database_report_for_missing_settings() {
    let raw = raw_db();
    let db = Database::new(&raw, &None);
    let report = lines(&db.raw_database_config_report(&raw, &None));
    assert!(report.contains(&(
        LogLevel::Warn,
        "config database connection string file was not specified, setting database connection string to `mysql://root@localhost:3306/eas-weather-rs`".to_string()
    )));
    assert!(report.contains(&(
        LogLevel::Warn,
        "config database connection retry initial delay seconds was not specified, setting to default `1`".to_string()
    )));
}

#[test]
fn newtypes_accept_every_value() {
    assert_eq!(DbConnRetryInitDelaySecs::new(&0).ok().unwrap().get(), 0);
    assert_eq!(DbConnRetryInitDelaySecs::new(&u64::MAX).ok().unwrap().to_display_string(), "18446744073709551615");
    assert_eq!(DbMinConnections::new(&12).ok().unwrap().to_display_string(), "12");
    assert_eq!(DbMinConnections::default().get(), 1);
}

#[test]
fn crate_name_matches_skips_separators() {
    assert!(crate_name_matches("eas-weather-rs", "eas_weather_rs"));
    assert!(crate_name_matches("eas-weather-rs", "easweatherrs"));
    assert!(crate_name_matches("", ""));
    assert!(crate_name_matches("--", "__"));
    assert!(!crate_name_matches("eas-weather-rs", "eas_weather"));
    assert!(!crate_name_matches("eas-weather", "eas_weather_rs"));
    assert!(!crate_name_matches("eas-weather-rs", "EAS_WEATHER_RS"));
}

#[test]
fn config_file_default() {
    assert_eq!(config_file_or_default(&None), "config/config.toml");
    assert_eq!(config_file_or_default(&Some("my.toml".into())), "my.toml");
}

#[test]
fn config_env_entries_are_filtered_and_renamed() {
    assert_eq!(
        config_env_entry("EAS_WEATHER_RS__LOGGING__FORMAT", "json"),
        Some(("EAS_WEATHER_RS.LOGGING.FORMAT".to_string(), "json".to_string()))
    );
    assert_eq!(
        config_env_entry("EAS_WEATHER_RS__DATABASE__CONN_URL_FILE", "x"),
        Some(("EAS_WEATHER_RS.DATABASE.CONN_URL_FILE".to_string(), "x".to_string()))
    );
    assert_eq!(config_env_entry("EAS_WEATHER_RS__", ""), Some(("EAS_WEATHER_RS.".to_string(), String::new())));
    assert_eq!(config_env_entry("PATH", "/bin"), None);
    assert_eq!(config_env_entry("LOGGING__FORMAT", "json"), None);
    assert_eq!(config_env_entry("EAS_WEATHER_RS_LOGGING", "json"), None);
    assert_eq!(replace_dunders("a___b"), "a._b");
    assert_eq!(replace_dunders("____"), "..");
    assert_eq!(replace_dunders("_"), "_");
    assert_eq!(replace_dunders("a___b"), "a___b".replace("__", "."));
}

#[test]
fn trace_level_error_messages() {
    let e = LoggingTraceLevel::new(" loud ").err().unwrap();
    assert_eq!(e.message(), "LRE-1001: unknown trace format type (`loud`) was specified");
    let e = LoggingTraceLevel::new("\t").err().unwrap();
    assert_eq!(e.message(), "LRE-1001: empty trace format type was specified");
    match LoggingFormat::new("xml") {
        Err(e) => assert_eq!(e.message(), "unknown log format type was specified"),
        Ok(_) => panic!("expected an error"),
    }
}

fn layer(format: Option<&str>, port: Option<u16>, conn_url_file: Option<&str>) -> Config {
    Config {
        logging: ConfigLogging { format: format.map(|s| s.to_string()), trace_level: None },
        webserver: ConfigWebserver {
            hostname: None,
            port,
            base_path: None,
            shutdown_timeout_secs: None,
            api_key_file: None,
            jwt_key_file: None,
            jwt_access_token_expiry_secs: None,
            default_page_limit: None,
            page_limit_max: None,
        },
        database: ConfigDatabase {
            conn_url_file: conn_url_file.map(|s| s.to_string()),
            conn_max_retries: None,
            conn_retry_init_delay_secs: None,
            conn_acquire_timeout_secs: None,
            conn_idle_timeout_secs: None,
            conn_max_lifetime_secs: None,
            max_connections: None,
            min_connections: None,
        },
        config_file: None,
    }
}

#[test]
fn configuration_layers_follow_priority_order() {
    let cli = layer(Some("json"), None, None);
    let env = layer(Some("text"), Some(3000), None);
    let file = layer(None, Some(4000), Some("db.url"));
    let default_file = layer(Some("text"), Some(8080), Some("default.url"));
    let c = layer_config(&cli, &env, &file, &default_file);
    assert_eq!(c.logging.format.as_deref(), Some("json"));
    assert_eq!(c.webserver.port, Some(3000));
    assert_eq!(c.database.conn_url_file.as_deref(), Some("db.url"));
    assert_eq!(c.logging.trace_level, None);
    let m = merge_config(&layer(None, None, None), &default_file);
    assert_eq!(m.webserver.port, Some(8080));
}
