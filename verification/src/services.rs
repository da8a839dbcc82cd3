//! The services that tie the configuration, logging, database and
//! webserver adaptors together.

pub mod config;
pub mod database;
pub mod logging;
pub mod meta;
pub mod webserver;
