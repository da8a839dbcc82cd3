//! The state shared between all request handlers.

use vstd::prelude::*;

use std::sync::Arc;

verus! {

/// Calls `Arc::clone`. Claimed of std: the clone points to the same value
/// as `a` (std documents it as another pointer to the same allocation).
#[verifier::external_body]
fn arc_clone<T>(a: &Arc<T>) -> (r: Arc<T>)
    ensures
        r == *a,
{
    Arc::clone(a)
}

/// The state shared between all request handlers: the configuration
/// service, the alert service and the database port.
#[derive(Debug)]
pub struct AppState<CS, AS, DP> {
    config_service: Arc<CS>,
    alert_service: Arc<AS>,
    db_port: Arc<DP>,
}

impl<CS, AS, DP> AppState<CS, AS, DP> {
    /// The configuration service held.
    pub closed spec fn spec_config_service(&self) -> CS {
        *self.config_service
    }

    /// The alert service held.
    pub closed spec fn spec_alert_service(&self) -> AS {
        *self.alert_service
    }

    /// The database port held.
    pub closed spec fn spec_database_port(&self) -> DP {
        *self.db_port
    }

    /// A state holding the given services.
    pub fn new(config_service: CS, alert_service: AS, db_port: DP) -> (r: Self)
        ensures
            r.spec_config_service() == config_service,
            r.spec_alert_service() == alert_service,
            r.spec_database_port() == db_port,
    {
        AppState {
            config_service: Arc::new(config_service),
            alert_service: Arc::new(alert_service),
            db_port: Arc::new(db_port),
        }
    }

    /// A shared handle on the configuration service.
    pub fn get_config_service(&self) -> (r: Arc<CS>)
        ensures
            *r == self.spec_config_service(),
    {
        arc_clone(&self.config_service)
    }

    /// A shared handle on the alert service.
    pub fn get_alert_service(&self) -> (r: Arc<AS>)
        ensures
            *r == self.spec_alert_service(),
    {
        arc_clone(&self.alert_service)
    }

    /// A shared handle on the database port, for health checks.
    pub fn get_database_port(&self) -> (r: Arc<DP>)
        ensures
            *r == self.spec_database_port(),
    {
        arc_clone(&self.db_port)
    }
}

impl<CS, AS, DP> Clone for AppState<CS, AS, DP> {
    /// Another handle on the same state: the clone shares the three services
    /// with the original, none of which is copied.
    fn clone(&self) -> (r: Self)
        ensures
            r == *self,
            r.spec_config_service() == self.spec_config_service(),
            r.spec_alert_service() == self.spec_alert_service(),
            r.spec_database_port() == self.spec_database_port(),
    {
        AppState {
            config_service: arc_clone(&self.config_service),
            alert_service: arc_clone(&self.alert_service),
            db_port: arc_clone(&self.db_port),
        }
    }
}

} // verus!
