//! Access to the database through a database adaptor.

use vstd::prelude::*;

use crate::ports::{ConfigRepo, DatabaseRepo, LoggingRepo};
use crate::services::config::ConfigService;
use crate::services::logging::LoggingService;

verus! {

/// Access to the database through a database adaptor.
#[derive(Debug, Clone)]
pub struct DatabaseService<D: DatabaseRepo> {
    pub repo: D,
}

impl<D: DatabaseRepo> DatabaseService<D> {
    /// Creates the database adaptor for the configured database settings.
    pub fn new<C: ConfigRepo, L: LoggingRepo>(
        conf_serv: &ConfigService<C>,
        log_serv: &LoggingService<L>,
    ) -> (r: Self)
        ensures
            r.repo.spec_database_conf() == conf_serv.repo.spec_database_config(),
    {
        let log_repo = log_serv.get_repo();
        let conf_db = conf_serv.get_database_config();
        let repo = D::new(log_repo, conf_db);
        DatabaseService { repo }
    }

    /// The database adaptor.
    pub fn get_repo(&self) -> (r: &D)
        ensures
            *r == self.repo,
    {
        &self.repo
    }

    /// Logs the database configuration in effect.
    pub fn log_adaptor_config<L: LoggingRepo, C: ConfigRepo>(
        &self,
        log_serv: &LoggingService<L>,
        conf_serv: &ConfigService<C>,
    ) {
        let log_repo = log_serv.get_repo();
        let conf_db = conf_serv.get_database_config();
        self.repo.log_adaptor_config(log_repo, conf_db);
    }
}

} // verus!
