//! Logging through a logging adaptor.

use vstd::prelude::*;

use crate::ports::{ConfigRepo, LoggingRepo};
use crate::services::config::ConfigService;

verus! {

/// Logging through a logging adaptor.
#[derive(Debug, Clone)]
pub struct LoggingService<L: LoggingRepo> {
    pub repo: L,
}

impl<L: LoggingRepo> LoggingService<L> {
    /// Sets up the logging adaptor with the configured logging settings.
    pub fn new<C: ConfigRepo>(conf_serv: &ConfigService<C>) -> (r: Self)
        ensures
            r.repo.spec_logging_conf() == conf_serv.repo.spec_logging_config(),
    {
        let conf_log = conf_serv.get_logging_config();
        let repo = L::new(conf_log);
        LoggingService { repo }
    }

    /// The logging adaptor.
    pub fn get_repo(&self) -> (r: &L)
        ensures
            *r == self.repo,
    {
        &self.repo
    }

    /// Logs the logging configuration in effect.
    pub fn log_set_config<C: ConfigRepo>(&self, conf_serv: &ConfigService<C>) {
        let conf_log = conf_serv.get_logging_config();
        self.repo.log_conf_validation(conf_log);
    }

    /// Logs an info level message.
    pub fn info(&self, mod_path: &str, message: &str) {
        self.repo.info(mod_path, message);
    }

    /// Logs an error level message.
    pub fn error(&self, mod_path: &str, message: &str) {
        self.repo.error(mod_path, message);
    }

    /// Logs a debug level message.
    pub fn debug(&self, mod_path: &str, message: &str) {
        self.repo.debug(mod_path, message);
    }

    /// Logs a warn level message.
    pub fn warn(&self, mod_path: &str, message: &str) {
        self.repo.warn(mod_path, message);
    }

    /// Logs a trace level message.
    pub fn trace(&self, mod_path: &str, message: &str) {
        self.repo.trace(mod_path, message);
    }
}

} // verus!
