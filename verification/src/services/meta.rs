//! Application metadata.

use vstd::prelude::*;

use crate::ports::{ConfigRepo, Meta};
use crate::services::config::ConfigService;

verus! {

/// Application metadata, backed by the configuration adaptor.
#[derive(Debug, Clone)]
pub struct MetaService<C: ConfigRepo> {
    conf_repo: C,
}

impl<C: ConfigRepo> MetaService<C> {
    /// The configuration adaptor this service reads from.
    pub closed spec fn spec_repo(&self) -> C {
        self.conf_repo
    }

    /// A metadata service over the configuration adaptor of `conf_serv`.
    pub fn new(conf_serv: ConfigService<C>) -> (r: Self)
        ensures
            r.spec_repo() == conf_serv.repo,
    {
        MetaService { conf_repo: conf_serv.repo }
    }

    /// The configuration adaptor.
    pub fn get_repo(&self) -> (r: &C)
        ensures
            *r == self.spec_repo(),
    {
        &self.conf_repo
    }
}

impl<C: ConfigRepo> Meta for MetaService<C> {
    fn get_app_data(&self) -> (r: String)
        ensures
            r@ == "EAS Weather API - Version 1.0"@,
    {
        String::from_str("EAS Weather API - Version 1.0")
    }
}

} // verus!
