//! The initial delay, in seconds, before retrying a database connection.

use vstd::prelude::*;

use crate::text::{decimal, decimal_string};

verus! {

/// A validated initial delay in seconds before a connection retry.
#[derive(Clone, Copy, Debug, PartialEq, Eq, Structural, Hash)]
pub struct DbConnRetryInitDelaySecs(u64);

/// Why a raw initial delay was rejected: every value is accepted, so no value
/// of this type is ever made.
#[derive(Debug)]
pub struct DbConnRetryInitDelaySecsError {
    never: (),
}

impl View for DbConnRetryInitDelaySecs {
    type V = u64;

    closed spec fn view(&self) -> u64 {
        self.0
    }
}

impl DbConnRetryInitDelaySecs {
    /// Accepts any delay.
    pub fn new(raw_db_conn_retry_init_delay_secs: &u64) -> (r: Result<
        Self,
        DbConnRetryInitDelaySecsError,
    >)
        ensures
            r matches Ok(d) && d@ == *raw_db_conn_retry_init_delay_secs,
    {
        Ok(DbConnRetryInitDelaySecs(*raw_db_conn_retry_init_delay_secs))
    }

    /// The delay used when none is configured: one second.
    pub fn default() -> (r: Self)
        ensures
            r@ == 1,
    {
        DbConnRetryInitDelaySecs(1)
    }

    /// The delay in seconds.
    pub fn get(&self) -> (r: u64)
        ensures
            r == self@,
    {
        self.0
    }

    /// The delay in decimal, as displayed in messages.
    pub fn to_display_string(&self) -> (r: String)
        ensures
            r@ == decimal(self@ as nat),
    {
        decimal_string(self.0)
    }
}

} // verus!
