//! Domain model, validation rules and service layer of the EAS weather
//! microservice, with their contracts checked by Verus.

pub mod config_input;
pub mod config_issue;
pub mod connect_retry;
pub mod crate_name;
pub mod database;
pub mod db_conn_retry_init_delay_secs;
pub mod db_conn_string;
pub mod db_min_connections;
pub mod http;
pub mod log_record;
pub mod logging;
pub mod logging_format;
pub mod logging_trace_level;
pub mod mysql_adaptor;
pub mod ports;
pub mod raw_config;
pub mod services;
pub mod text;
pub mod tracing_filter;
pub mod webserver;
pub mod webserver_jwt_key;
