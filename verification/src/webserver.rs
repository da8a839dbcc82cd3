//! The validated webserver configuration and the webserver adaptors' view
//! of it.

use vstd::prelude::*;

use crate::log_record::{push_record, records_view, LogLevel, LogRecord};
use crate::ports::{emit_records, LoggingRepo, WebserverRepo};
use crate::raw_config::ConfigWebserver;
use crate::text::{decimal, decimal_string};
use crate::webserver_jwt_key::{masked, WebserverJwtKey};

verus! {

/// The port listened on when none is configured: 8080.
pub const DEFAULT_PORT: u16 = 8080;

/// The graceful shutdown timeout used when none is configured: 30 seconds.
pub const DEFAULT_SHUTDOWN_TIMEOUT_SECS: u64 = 30;

/// The JWT access token lifetime used when none is configured: 3600
/// seconds.
pub const DEFAULT_JWT_ACCESS_TOKEN_EXPIRY_SECS: u64 = 3600;

/// The host name listened on when none is configured: `localhost`.
pub open spec fn default_hostname() -> Seq<char> {
    "localhost"@
}

/// The validated webserver configuration.
///
/// Every value of the host name, port, base path, shutdown timeout and
/// token lifetime is accepted, and an absent setting takes its default. The API key is read from its file by the same
/// rules as the JWT key, and like it is only ever shown masked.
#[derive(Debug)]
pub struct Webserver {
    pub hostname: String,
    pub port: u16,
    pub base_path: Option<String>,
    pub shutdown_timeout_secs: u64,
    pub api_key: WebserverJwtKey,
    pub jwt_key_file: WebserverJwtKey,
    pub jwt_access_token_expiry_secs: u64,
}

impl Clone for Webserver {
    fn clone(&self) -> (r: Self)
        ensures
            r == *self,
    {
        let base_path = match &self.base_path {
            Some(p) => Some(p.clone()),
            None => None,
        };
        Webserver {
            hostname: self.hostname.clone(),
            port: self.port,
            base_path,
            shutdown_timeout_secs: self.shutdown_timeout_secs,
            api_key: self.api_key.clone(),
            jwt_key_file: self.jwt_key_file.clone(),
            jwt_access_token_expiry_secs: self.jwt_access_token_expiry_secs,
        }
    }
}

/// The view of an optional string.
pub open spec fn opt_string_view(o: Option<String>) -> Option<Seq<char>> {
    match o {
        Some(s) => Some(s@),
        None => None,
    }
}

/// Whether a webserver configuration was derived from the raw settings:
/// each present setting is kept and each absent one takes its default.
pub open spec fn webserver_from_raw(raw: ConfigWebserver, w: Webserver) -> bool {
    &&& w.hostname@ == match raw.hostname {
        Some(h) => h@,
        None => default_hostname(),
    }
    &&& w.port == match raw.port {
        Some(p) => p,
        None => DEFAULT_PORT,
    }
    &&& opt_string_view(w.base_path) == opt_string_view(raw.base_path)
    &&& w.shutdown_timeout_secs == match raw.shutdown_timeout_secs {
        Some(t) => t,
        None => DEFAULT_SHUTDOWN_TIMEOUT_SECS,
    }
    &&& w.jwt_access_token_expiry_secs == match raw.jwt_access_token_expiry_secs {
        Some(t) => t,
        None => DEFAULT_JWT_ACCESS_TOKEN_EXPIRY_SECS,
    }
}

impl Webserver {
    /// The webserver configuration from the raw settings and the keys read
    /// from their files.
    pub fn new(conf: &ConfigWebserver, api_key: WebserverJwtKey, jwt_key: WebserverJwtKey) -> (r:
        Self)
        ensures
            webserver_from_raw(*conf, r),
            r.api_key == api_key,
            r.jwt_key_file == jwt_key,
    {
        let hostname = match &conf.hostname {
            Some(h) => h.clone(),
            None => {
                proof {
                    reveal_strlit("localhost");
                }
                String::from_str("localhost")
            },
        };
        let port = match conf.port {
            Some(p) => p,
            None => DEFAULT_PORT,
        };
        let base_path = match &conf.base_path {
            Some(p) => Some(p.clone()),
            None => None,
        };
        let shutdown_timeout_secs = match conf.shutdown_timeout_secs {
            Some(t) => t,
            None => DEFAULT_SHUTDOWN_TIMEOUT_SECS,
        };
        let jwt_access_token_expiry_secs = match conf.jwt_access_token_expiry_secs {
            Some(t) => t,
            None => DEFAULT_JWT_ACCESS_TOKEN_EXPIRY_SECS,
        };
        Webserver {
            hostname,
            port,
            base_path,
            shutdown_timeout_secs,
            api_key,
            jwt_key_file: jwt_key,
            jwt_access_token_expiry_secs,
        }
    }
}

/// How the base path is shown in logs: the configured path, or `<None>`.
pub open spec fn base_path_display(b: Option<Seq<char>>) -> Seq<char> {
    match b {
        Some(p) => p,
        None => "<None>"@,
    }
}

/// What a webserver adaptor named `name` reports of its configuration, in
/// order: host name, port, base path, shutdown timeout, the API key and the
/// JWT key (both masked), and the token lifetime when `with_token_expiry`.
pub open spec fn adaptor_config_report(
    name: Seq<char>,
    conf: Webserver,
    with_token_expiry: bool,
) -> Seq<(LogLevel, Seq<char>)> {
    seq![
        (LogLevel::Info, name + "_hostname="@ + conf.hostname@),
        (LogLevel::Info, name + "_port="@ + decimal(conf.port as nat)),
        (LogLevel::Info, name + "_base_path="@ + base_path_display(opt_string_view(conf.base_path))),
        (
            LogLevel::Info,
            name + "_shutdown_timeout_secs="@ + decimal(conf.shutdown_timeout_secs as nat),
        ),
        (LogLevel::Info, name + "_api_key="@ + masked(conf.api_key@)),
        (LogLevel::Info, name + "_jwt_key="@ + masked(conf.jwt_key_file@)),
    ] + if with_token_expiry {
        seq![
            (
                LogLevel::Info,
                name + "_jwt_access_token_expiry_secs="@ + decimal(
                    conf.jwt_access_token_expiry_secs as nat,
                ),
            ),
        ]
    } else {
        seq![]
    }
}

/// The lines a webserver adaptor logs about its configuration; secrets are
/// masked.
pub fn webserver_config_report(adaptor_name: &str, conf: &Webserver, with_token_expiry: bool) -> (r:
    Vec<LogRecord>)
    ensures
        records_view(r@) == adaptor_config_report(adaptor_name@, *conf, with_token_expiry),
{
    let mut records: Vec<LogRecord> = Vec::new();
    let msg = String::from_str(adaptor_name).concat("_hostname=").concat(conf.hostname.as_str());
    push_record(&mut records, LogRecord::new(LogLevel::Info, msg));
    let port = decimal_string(conf.port as u64);
    let msg = String::from_str(adaptor_name).concat("_port=").concat(port.as_str());
    push_record(&mut records, LogRecord::new(LogLevel::Info, msg));
    let base = match &conf.base_path {
        Some(p) => p.as_str(),
        None => {
            proof {
                reveal_strlit("<None>");
            }
            "<None>"
        },
    };
    let msg = String::from_str(adaptor_name).concat("_base_path=").concat(base);
    push_record(&mut records, LogRecord::new(LogLevel::Info, msg));
    let t = decimal_string(conf.shutdown_timeout_secs);
    let msg = String::from_str(adaptor_name).concat("_shutdown_timeout_secs=").concat(t.as_str());
    push_record(&mut records, LogRecord::new(LogLevel::Info, msg));
    let k = conf.api_key.to_display_string();
    let msg = String::from_str(adaptor_name).concat("_api_key=").concat(k.as_str());
    push_record(&mut records, LogRecord::new(LogLevel::Info, msg));
    let k = conf.jwt_key_file.to_display_string();
    let msg = String::from_str(adaptor_name).concat("_jwt_key=").concat(k.as_str());
    push_record(&mut records, LogRecord::new(LogLevel::Info, msg));
    if with_token_expiry {
        let e = decimal_string(conf.jwt_access_token_expiry_secs);
        let msg = String::from_str(adaptor_name).concat("_jwt_access_token_expiry_secs=").concat(
            e.as_str(),
        );
        push_record(&mut records, LogRecord::new(LogLevel::Info, msg));
    }
    assert(records_view(records@) =~= adaptor_config_report(
        adaptor_name@,
        *conf,
        with_token_expiry,
    ));
    records
}

/// The axum webserver adaptor.
#[derive(Debug, Clone)]
pub struct WebserverAxum {
    config: Webserver,
}

impl WebserverAxum {
    /// The configuration the adaptor serves with.
    pub closed spec fn spec_config(&self) -> Webserver {
        self.config
    }

    /// An adaptor serving with the given configuration.
    pub fn new(conf_webserv: Webserver) -> (r: Self)
        ensures
            r.spec_config() == conf_webserv,
    {
        WebserverAxum { config: conf_webserv }
    }

    /// The configuration the adaptor serves with.
    pub fn config(&self) -> (r: &Webserver)
        ensures
            *r == self.spec_config(),
    {
        &self.config
    }
}

impl WebserverRepo for WebserverAxum {
    closed spec fn spec_served_config(&self) -> Webserver {
        self.config
    }

    fn new<L: LoggingRepo>(_log_repo: &L, conf_webserv: &Webserver) -> (r: Self) {
        WebserverAxum::new(conf_webserv.clone())
    }

    fn log_adaptor_config<L: LoggingRepo>(&self, log_repo: &L, conf: &Webserver) {
        let records = webserver_config_report("axum", conf, false);
        emit_records(log_repo, "eas_weather_rs::webserver::axum", &records);
    }
}

/// The poem webserver adaptor.
#[derive(Debug, Clone)]
pub struct WebserverPoem {
    config: Webserver,
}

impl WebserverPoem {
    /// The configuration the adaptor serves with.
    pub closed spec fn spec_config(&self) -> Webserver {
        self.config
    }

    /// An adaptor serving with the given configuration.
    pub fn new(conf_webserv: Webserver) -> (r: Self)
        ensures
            r.spec_config() == conf_webserv,
    {
        WebserverPoem { config: conf_webserv }
    }

    /// The configuration the adaptor serves with.
    pub fn config(&self) -> (r: &Webserver)
        ensures
            *r == self.spec_config(),
    {
        &self.config
    }
}

impl WebserverRepo for WebserverPoem {
    closed spec fn spec_served_config(&self) -> Webserver {
        self.config
    }

    fn new<L: LoggingRepo>(_log_repo: &L, conf_webserv: &Webserver) -> (r: Self) {
        WebserverPoem::new(conf_webserv.clone())
    }

    fn log_adaptor_config<L: LoggingRepo>(&self, log_repo: &L, conf: &Webserver) {
        let records = webserver_config_report("poem", conf, true);
        emit_records(log_repo, "eas_weather_rs::webserver::poem", &records);
    }
}

} // verus!
