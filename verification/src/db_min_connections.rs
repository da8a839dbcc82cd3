//! The minimum number of connections kept in the database pool.

use vstd::prelude::*;

use crate::text::{decimal, decimal_string};

verus! {

/// A validated minimum number of pooled database connections.
#[derive(Clone, Copy, Debug, PartialEq, Eq, Structural, Hash)]
pub struct DbMinConnections(u32);

/// Why a raw minimum was rejected: every value is accepted, so no value of
/// this type is ever made.
#[derive(Debug)]
pub struct DbMinConnectionsError {
    never: (),
}

impl View for DbMinConnections {
    type V = u32;

    closed spec fn view(&self) -> u32 {
        self.0
    }
}

impl DbMinConnections {
    /// Accepts any minimum.
    pub fn new(raw_db_min_connections: &u32) -> (r: Result<Self, DbMinConnectionsError>)
        ensures
            r matches Ok(m) && m@ == *raw_db_min_connections,
    {
        Ok(DbMinConnections(*raw_db_min_connections))
    }

    /// The minimum used when none is configured: one connection.
    pub fn default() -> (r: Self)
        ensures
            r@ == 1,
    {
        DbMinConnections(1)
    }

    /// The minimum number of connections.
    pub fn get(&self) -> (r: u32)
        ensures
            r == self@,
    {
        self.0
    }

    /// The minimum in decimal, as displayed in messages.
    pub fn to_display_string(&self) -> (r: String)
        ensures
            r@ == decimal(self@ as nat),
    {
        decimal_string(self.0 as u64)
    }
}

} // verus!
