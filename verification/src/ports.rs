//! The ports through which the services reach their adaptors.

use vstd::prelude::*;

use crate::database::{
    Database, DEFAULT_CONN_ACQUIRE_TIMEOUT_SECS, DEFAULT_CONN_IDLE_TIMEOUT_SECS,
    DEFAULT_CONN_MAX_LIFETIME_SECS, DEFAULT_CONN_MAX_RETRIES, DEFAULT_MAX_CONNECTIONS,
};
use crate::db_conn_string::default_conn_string;
use crate::log_record::{LogLevel, LogRecord};
use crate::logging::{effective_format, effective_trace_level, Logging};
use crate::raw_config::Config;
use crate::webserver::{webserver_from_raw, Webserver};

verus! {

/// A logging backend.
pub trait LoggingRepo {
    /// The configuration the backend was set up with.
    spec fn spec_logging_conf(&self) -> Logging;

    /// Sets up the backend with the given configuration.
    fn new(conf: &Logging) -> (r: Self) where Self: core::marker::Sized
        ensures
            r.spec_logging_conf() == *conf,
    ;

    /// Logs an info level message.
    fn info(&self, mod_path: &str, message: &str);

    /// Logs an error level message.
    fn error(&self, mod_path: &str, message: &str);

    /// Logs a debug level message.
    fn debug(&self, mod_path: &str, message: &str);

    /// Logs a warn level message.
    fn warn(&self, mod_path: &str, message: &str);

    /// Logs a trace level message.
    fn trace(&self, mod_path: &str, message: &str);

    /// Logs the configuration that the backend was set up with.
    fn log_conf_validation(&self, conf: &Logging);
}

/// Whether validated settings were derived from the raw ones: each logging,
/// database and webserver setting takes its raw value when it is accepted
/// and its default otherwise, and with no connection string file configured
/// the default connection string is used.
pub open spec fn validated_from_raw(
    raw: Config,
    logging: Logging,
    database: Database,
    webserver: Webserver,
) -> bool {
    &&& logging.format@ == effective_format(raw.logging.format)
    &&& logging.trace_level@ == effective_trace_level(raw.logging.trace_level)
    &&& database.conn_retry_init_delay_secs@ == match raw.database.conn_retry_init_delay_secs {
        Some(d) => d,
        None => 1,
    }
    &&& database.min_connections@ == match raw.database.min_connections {
        Some(m) => m,
        None => 1,
    }
    &&& database.conn_max_retries == match raw.database.conn_max_retries {
        Some(v) => v,
        None => DEFAULT_CONN_MAX_RETRIES,
    }
    &&& database.conn_acquire_timeout_secs == match raw.database.conn_acquire_timeout_secs {
        Some(v) => v,
        None => DEFAULT_CONN_ACQUIRE_TIMEOUT_SECS,
    }
    &&& database.conn_idle_timeout_secs == match raw.database.conn_idle_timeout_secs {
        Some(v) => v,
        None => DEFAULT_CONN_IDLE_TIMEOUT_SECS,
    }
    &&& database.conn_max_lifetime_secs == match raw.database.conn_max_lifetime_secs {
        Some(v) => v,
        None => DEFAULT_CONN_MAX_LIFETIME_SECS,
    }
    &&& database.max_connections == match raw.database.max_connections {
        Some(v) => v,
        None => DEFAULT_MAX_CONNECTIONS,
    }
    &&& raw.database.conn_url_file is None ==> database.conn_string@ == default_conn_string()
    &&& webserver_from_raw(raw.webserver, webserver)
}

/// A source of the application configuration.
pub trait ConfigRepo {
    /// The raw configuration gathered.
    spec fn spec_raw_config(&self) -> Config;

    /// The validated logging configuration.
    spec fn spec_logging_config(&self) -> Logging;

    /// The validated database configuration.
    spec fn spec_database_config(&self) -> Database;

    /// The validated webserver configuration.
    spec fn spec_webserver_config(&self) -> Webserver;

    /// Gathers the configuration, by the priority order CLI args >
    /// environment variables (those set by the `.env` file included) >
    /// configuration file > default configuration file > default values
    /// (see `raw_config::layered`), and validates it.
    fn new() -> (r: Self) where Self: core::marker::Sized
        ensures
            validated_from_raw(
                r.spec_raw_config(),
                r.spec_logging_config(),
                r.spec_database_config(),
                r.spec_webserver_config(),
            ),
    ;

    /// The raw configuration.
    fn get_raw_config(&self) -> (r: &Config)
        ensures
            *r == self.spec_raw_config(),
    ;

    /// The validated logging configuration.
    fn get_logging_config(&self) -> (r: &Logging)
        ensures
            *r == self.spec_logging_config(),
    ;

    /// The validated database configuration.
    fn get_database_config(&self) -> (r: &Database)
        ensures
            *r == self.spec_database_config(),
    ;

    /// The validated webserver configuration.
    fn get_webserver_config(&self) -> (r: &Webserver)
        ensures
            *r == self.spec_webserver_config(),
    ;

    /// Logs the raw configuration inputs, without validation.
    fn log_raw_config_input<L: LoggingRepo>(&self, log_serv: &L);

    /// Logs the validation messages on the configuration; to be called once
    /// the logging backend is up.
    fn log_raw_config_validation<L: LoggingRepo>(&self, log_serv: &L);
}

/// A webserver adaptor.
pub trait WebserverRepo {
    /// The configuration the adaptor serves with.
    spec fn spec_served_config(&self) -> Webserver;

    /// Creates the adaptor for the given configuration.
    fn new<L: LoggingRepo>(log_repo: &L, conf_webserv: &Webserver) -> (r: Self) where
        Self: core::marker::Sized
        ensures
            r.spec_served_config() == *conf_webserv,
    ;

    /// Logs the configuration that the adaptor was set up with.
    fn log_adaptor_config<L: LoggingRepo>(&self, log_repo: &L, conf: &Webserver);
}

/// A database adaptor.
pub trait DatabaseRepo {
    /// The database configuration the adaptor was made for.
    spec fn spec_database_conf(&self) -> Database;

    /// Creates the adaptor for the given configuration.
    fn new<L: LoggingRepo>(log_repo: &L, conf: &Database) -> (r: Self) where
        Self: core::marker::Sized
        ensures
            r.spec_database_conf() == *conf,
    ;

    /// Logs the configuration that the adaptor was set up with.
    fn log_adaptor_config<L: LoggingRepo>(&self, log_repo: &L, conf: &Database);
}

/// Application metadata.
pub trait Meta {
    /// Application metadata, such as version info.
    fn get_app_data(&self) -> String;
}

/// Sends each record to `log` at its level.
pub fn emit_records<L: LoggingRepo>(log: &L, mod_path: &str, records: &Vec<LogRecord>) {
    let mut i: usize = 0;
    while i < records.len()
        invariant
            0 <= i <= records.len(),
        decreases records.len() - i,
    {
        let rec = &records[i];
        match rec.level {
            LogLevel::Error => log.error(mod_path, rec.message.as_str()),
            LogLevel::Warn => log.warn(mod_path, rec.message.as_str()),
            LogLevel::Info => log.info(mod_path, rec.message.as_str()),
            LogLevel::Debug => log.debug(mod_path, rec.message.as_str()),
            LogLevel::Trace => log.trace(mod_path, rec.message.as_str()),
        }
        i = i + 1;
    }
}

} // verus!
