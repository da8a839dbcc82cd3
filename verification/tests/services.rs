use std::cell::RefCell;

use eas_weather_rs::database::Database;
use eas_weather_rs::http::app_state::AppState;
use eas_weather_rs::log_record::LogLevel;
use eas_weather_rs::logging::Logging;
use eas_weather_rs::ports::{ConfigRepo, LoggingRepo, Meta};
use eas_weather_rs::raw_config::{Config, ConfigDatabase, ConfigLogging, ConfigWebserver};
use eas_weather_rs::services::config::ConfigService;
use eas_weather_rs::services::logging::LoggingService;
use eas_weather_rs::services::meta::MetaService;
use eas_weather_rs::services::webserver::WebserverService;
use eas_weather_rs::webserver::{Webserver, WebserverAxum, WebserverPoem};
use eas_weather_rs::webserver_jwt_key::WebserverJwtKey;

struct Recorder {
    lines: RefCell<Vec<(LogLevel, String)>>,
    conf: Logging,
}

impl Recorder {
    fn push(&self, level: LogLevel, message: &str) {
        self.lines.borrow_mut().push((level, message.to_string()));
    }
}

fn take_lines(log: &LoggingService<Recorder>) -> Vec<(LogLevel, String)> {
    log.get_repo().lines.replace(Vec::new())
}

impl LoggingRepo for Recorder {
    fn spec_logging_conf(&self) -> Logging {
        self.conf
    }
    fn new(conf: &Logging) -> Self {
        Recorder { lines: RefCell::new(Vec::new()), conf: *conf }
    }
    fn info(&self, _m: &str, message: &str) {
        self.push(LogLevel::Info, message);
    }
    fn error(&self, _m: &str, message: &str) {
        self.push(LogLevel::Error, message);
    }
    fn debug(&self, _m: &str, message: &str) {
        self.push(LogLevel::Debug, message);
    }
    fn warn(&self, _m: &str, message: &str) {
        self.push(LogLevel::Warn, message);
    }
    fn trace(&self, _m: &str, message: &str) {
        self.push(LogLevel::Trace, message);
    }
    fn log_conf_validation(&self, conf: &Logging) {
        self.info("", conf.format.as_str());
        self.info("", conf.trace_level.as_str());
    }
}

#[derive(Debug, Clone)]
struct MockConfig {
    raw: Config,
    logging: Logging,
    database: Database,
    webserver: Webserver,
}

fn raw_config() -> Config {
    Config {
        logging: ConfigLogging { format: Some("json".into()), trace_level: None },
        webserver: ConfigWebserver {
            hostname: Some("0.0.0.0".into()),
            port: Some(8080),
            base_path: Some("/api".into()),
            shutdown_timeout_secs: Some(30),
            api_key_file: None,
            jwt_key_file: None,
            jwt_access_token_expiry_secs: Some(3600),
            default_page_limit: Some(10),
            page_limit_max: Some(100),
        },
        database: ConfigDatabase {
            conn_url_file: None,
            conn_max_retries: Some(5),
            conn_retry_init_delay_secs: Some(1),
            conn_acquire_timeout_secs: Some(2),
            conn_idle_timeout_secs: Some(3),
            conn_max_lifetime_secs: Some(4),
            max_connections: Some(6),
            min_connections: Some(1),
        },
        config_file: Some("config/default.toml".into()),
    }
}

impl ConfigRepo for MockConfig {
    fn spec_raw_config(&self) -> Config {
        self.raw.clone()
    }
    fn spec_logging_config(&self) -> Logging {
        self.logging
    }
    fn spec_database_config(&self) -> Database {
        self.database.clone()
    }
    fn spec_webserver_config(&self) -> Webserver {
        self.webserver.clone()
    }
    fn new() -> Self {
        let raw = raw_config();
        MockConfig {
            logging: Logging::new(&raw.logging),
            database: Database::new(&raw.database, &None),
            webserver: Webserver::new(&raw.webserver, WebserverJwtKey::default(), WebserverJwtKey::default()),
            raw,
        }
    }
    fn get_raw_config(&self) -> &Config {
        &self.raw
    }
    fn get_logging_config(&self) -> &Logging {
        &self.logging
    }
    fn get_database_config(&self) -> &Database {
        &self.database
    }
    fn get_webserver_config(&self) -> &Webserver {
        &self.webserver
    }
    fn log_raw_config_input<L: LoggingRepo>(&self, log_serv: &L) {
        log_serv.debug("", "raw input");
    }
    fn log_raw_config_validation<L: LoggingRepo>(&self, log_serv: &L) {
        self.logging.validate_raw_logging_config(log_serv, &self.raw.logging);
    }
}

#[test]
fn config_service_hands_out_the_adaptor_configuration() {
    let conf: ConfigService<MockConfig> = ConfigService::new();
    assert_eq!(conf.get_raw_config().webserver.port, Some(8080));
    assert_eq!(conf.get_logging_config().format.as_str(), "json");
    assert_eq!(conf.get_database_config().conn_retry_init_delay_secs.get(), 1);
    assert_eq!(conf.get_webservicer_config().jwt_key_file.get(), None);
    assert_eq!(conf.get_repo().raw.config_file.as_deref(), Some("config/default.toml"));
}

#[test]
fn config_service_logs_through_the_logging_service() {
    let conf: ConfigService<MockConfig> = ConfigService::from_config_port(MockConfig::new());
    let log: LoggingService<Recorder> = LoggingService::new(&conf);
    take_lines(&log);
    conf.log_raw_config_input(&log);
    conf.log_raw_config_validation(&log);
    log.log_set_config(&conf);
    assert_eq!(
        take_lines(&log),
        vec![
            (LogLevel::Debug, "raw input".to_string()),
            (LogLevel::Warn, "config logging trace level was not specified, setting value to `info`".to_string()),
            (LogLevel::Info, "json".to_string()),
            (LogLevel::Info, "info".to_string()),
        ]
    );
}

#[test]
fn logging_service_forwards_each_level() {
    let conf: ConfigService<MockConfig> = ConfigService::new();
    let log: LoggingService<Recorder> = LoggingService::new(&conf);
    take_lines(&log);
    log.info("m", "i");
    log.error("m", "e");
    log.debug("m", "d");
    log.warn("m", "w");
    log.trace("m", "t");
    assert_eq!(
        take_lines(&log),
        vec![
            (LogLevel::Info, "i".to_string()),
            (LogLevel::Error, "e".to_string()),
            (LogLevel::Debug, "d".to_string()),
            (LogLevel::Warn, "w".to_string()),
            (LogLevel::Trace, "t".to_string()),
        ]
    );
}

#[test]
fn webserver_services_report_their_adaptor() {
    let conf: ConfigService<MockConfig> = ConfigService::new();
    let log: LoggingService<Recorder> = LoggingService::new(&conf);
    take_lines(&log);
    let axum: WebserverService<WebserverAxum> = WebserverService::new(&conf, &log);
    axum.log_adaptor_config(&log, &conf);
    let poem: WebserverService<WebserverPoem> = WebserverService::new(&conf, &log);
    poem.log_adaptor_config(&log, &conf);
    assert_eq!(
        take_lines(&log),
        vec![
            (LogLevel::Info, "axum_hostname=0.0.0.0".to_string()),
            (LogLevel::Info, "axum_port=8080".to_string()),
            (LogLevel::Info, "axum_base_path=/api".to_string()),
            (LogLevel::Info, "axum_shutdown_timeout_secs=30".to_string()),
            (LogLevel::Info, "axum_api_key=<None>".to_string()),
            (LogLevel::Info, "axum_jwt_key=<None>".to_string()),
            (LogLevel::Info, "poem_hostname=0.0.0.0".to_string()),
            (LogLevel::Info, "poem_port=8080".to_string()),
            (LogLevel::Info, "poem_base_path=/api".to_string()),
            (LogLevel::Info, "poem_shutdown_timeout_secs=30".to_string()),
            (LogLevel::Info, "poem_api_key=<None>".to_string()),
            (LogLevel::Info, "poem_jwt_key=<None>".to_string()),
            (LogLevel::Info, "poem_jwt_access_token_expiry_secs=3600".to_string()),
        ]
    );
    assert_eq!(axum.get_repo().config().jwt_key_file.get(), None);
}

#[test]
fn meta_service_describes_the_api() {
    let conf: ConfigService<MockConfig> = ConfigService::new();
    let meta = MetaService::new(conf);
    assert_eq!(meta.get_app_data(), "EAS Weather API - Version 1.0");
    assert_eq!(meta.get_repo().raw.webserver.hostname.as_deref(), Some("0.0.0.0"));
}

#[test]
fn app_state_shares_its_services() {
    let state = AppState::new(1u8, "alerts".to_string(), 3u32);
    let copy = state.clone();
    assert_eq!(*copy.get_config_service(), 1);
    assert_eq!(*copy.get_alert_service(), "alerts");
    assert_eq!(*state.get_database_port(), 3);
    assert!(std::sync::Arc::ptr_eq(&state.get_config_service(), &copy.get_config_service()));
}

#[test]
fn app_state_clone_shares_the_database_port() {
    let state = AppState::new("conf".to_string(), 0u8, vec![1u8, 2]);
    let copy = state.clone();
    assert!(std::sync::Arc::ptr_eq(&state.get_database_port(), &copy.get_database_port()));
    assert!(std::sync::Arc::ptr_eq(&state.get_alert_service(), &copy.get_alert_service()));
    assert_eq!(*copy.get_database_port(), vec![1u8, 2]);
}
