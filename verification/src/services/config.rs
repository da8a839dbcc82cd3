//! Access to the application configuration.

use vstd::prelude::*;

use crate::database::Database;
use crate::logging::Logging;
use crate::ports::{validated_from_raw, ConfigRepo, LoggingRepo};
use crate::raw_config::Config;
use crate::services::logging::LoggingService;
use crate::webserver::Webserver;

verus! {

/// Access to the application configuration through a configuration adaptor.
#[derive(Debug, Clone)]
pub struct ConfigService<C: ConfigRepo> {
    pub repo: C,
}

impl<C: ConfigRepo> ConfigService<C> {
    /// Gathers the configuration through a new adaptor.
    pub fn new() -> (r: Self)
        ensures
            validated_from_raw(
                r.repo.spec_raw_config(),
                r.repo.spec_logging_config(),
                r.repo.spec_database_config(),
                r.repo.spec_webserver_config(),
            ),
    {
        let repo = C::new();
        ConfigService { repo }
    }

    /// A service over an adaptor that already holds the configuration.
    pub fn from_config_port(repo: C) -> (r: Self)
        ensures
            r.repo == repo,
    {
        ConfigService { repo }
    }

    /// The configuration adaptor.
    pub fn get_repo(&self) -> (r: &C)
        ensures
            *r == self.repo,
    {
        &self.repo
    }

    /// Logs the raw configuration inputs.
    pub fn log_raw_config_input<L: LoggingRepo>(&self, logging_serv: &LoggingService<L>) {
        let log_repo = logging_serv.get_repo();
        self.repo.log_raw_config_input(log_repo);
    }

    /// The raw configuration.
    pub fn get_raw_config(&self) -> (r: &Config)
        ensures
            *r == self.repo.spec_raw_config(),
    {
        self.repo.get_raw_config()
    }

    /// Logs the validation messages on the raw configuration.
    pub fn log_raw_config_validation<L: LoggingRepo>(&self, logging_serv: &LoggingService<L>) {
        let log_repo = logging_serv.get_repo();
        self.repo.log_raw_config_validation(log_repo);
    }

    /// The validated logging configuration.
    pub fn get_logging_config(&self) -> (r: &Logging)
        ensures
            *r == self.repo.spec_logging_config(),
    {
        self.repo.get_logging_config()
    }

    /// The validated database configuration.
    pub fn get_database_config(&self) -> (r: &Database)
        ensures
            *r == self.repo.spec_database_config(),
    {
        self.repo.get_database_config()
    }

    /// The validated webserver configuration.
    pub fn get_webservicer_config(&self) -> (r: &Webserver)
        ensures
            *r == self.repo.spec_webserver_config(),
    {
        self.repo.get_webserver_config()
    }
}

} // verus!
