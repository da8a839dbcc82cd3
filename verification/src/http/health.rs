//! The answers of the health endpoints.

use vstd::prelude::*;

verus! {

/// The status code and JSON body fields of a health answer.
#[derive(Debug)]
pub struct HealthReport {
    pub status_code: u16,
    pub status: String,
    pub message: String,
}

/// The abstract contents of a health answer.
pub open spec fn report_of(r: HealthReport) -> (u16, Seq<char>, Seq<char>) {
    (r.status_code, r.status@, r.message@)
}

/// The startup answer: the server has started.
pub fn startup() -> (r: HealthReport)
    ensures
        report_of(r) == (200u16, "ok"@, "Server is started"@),
{
    HealthReport {
        status_code: 200,
        status: String::from_str("ok"),
        message: String::from_str("Server is started"),
    }
}

/// The readiness answer, from the outcome of the database health check:
/// 200 when the database answers, and 503 with the reason otherwise, so that
/// the orchestrator stops routing traffic to this instance.
pub fn readiness(db_health: Result<(), String>) -> (r: HealthReport)
    ensures
        report_of(r) == match db_health {
            Ok(()) => (200u16, "ok"@, "Server is ready"@),
            Err(e) => (503u16, "unavailable"@, e@),
        },
{
    match db_health {
        Ok(()) => HealthReport {
            status_code: 200,
            status: String::from_str("ok"),
            message: String::from_str("Server is ready"),
        },
        Err(e) => HealthReport {
            status_code: 503,
            status: String::from_str("unavailable"),
            message: e,
        },
    }
}

/// The liveness answer: the server is alive, whatever the database does.
pub fn liveness() -> (r: HealthReport)
    ensures
        report_of(r) == (200u16, "ok"@, "Server is running and healthy"@),
{
    HealthReport {
        status_code: 200,
        status: String::from_str("ok"),
        message: String::from_str("Server is running and healthy"),
    }
}

} // verus!
