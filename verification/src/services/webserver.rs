//! The webserver, through a webserver adaptor.

use vstd::prelude::*;

use crate::ports::{ConfigRepo, LoggingRepo, WebserverRepo};
use crate::services::config::ConfigService;
use crate::services::logging::LoggingService;

verus! {

/// The webserver, through a webserver adaptor.
#[derive(Debug, Clone)]
pub struct WebserverService<W: WebserverRepo> {
    pub repo: W,
}

impl<W: WebserverRepo> WebserverService<W> {
    /// Creates the webserver adaptor for the configured webserver settings.
    pub fn new<C: ConfigRepo, L: LoggingRepo>(
        conf_serv: &ConfigService<C>,
        log_serv: &LoggingService<L>,
    ) -> (r: Self)
        ensures
            r.repo.spec_served_config() == conf_serv.repo.spec_webserver_config(),
    {
        let log_repo = log_serv.get_repo();
        let conf_webserv = conf_serv.get_webservicer_config();
        let repo = W::new(log_repo, conf_webserv);
        WebserverService { repo }
    }

    /// The webserver adaptor.
    pub fn get_repo(&self) -> (r: &W)
        ensures
            *r == self.repo,
    {
        &self.repo
    }

    /// Logs the webserver configuration in effect.
    pub fn log_adaptor_config<L: LoggingRepo, C: ConfigRepo>(
        &self,
        log_serv: &LoggingService<L>,
        conf_serv: &ConfigService<C>,
    ) {
        let log_repo = log_serv.get_repo();
        let conf_webserver = conf_serv.get_webservicer_config();
        self.repo.log_adaptor_config(log_repo, conf_webserver);
    }
}

} // verus!
