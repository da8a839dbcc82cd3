//! Log lines decided by the library and emitted by a logging adaptor.

use vstd::prelude::*;

verus! {

/// Severity of a log line.
#[derive(Clone, Copy, Debug, PartialEq, Eq, Structural, Hash)]
pub enum LogLevel {
    Error,
    Warn,
    Info,
    Debug,
    Trace,
}

/// A log line: its severity and its text.
#[derive(Debug)]
pub struct LogRecord {
    pub level: LogLevel,
    pub message: String,
}

impl View for LogRecord {
    type V = (LogLevel, Seq<char>);

    open spec fn view(&self) -> (LogLevel, Seq<char>) {
        (self.level, self.message@)
    }
}

/// The abstract contents of a list of log lines.
pub open spec fn records_view(v: Seq<LogRecord>) -> Seq<(LogLevel, Seq<char>)> {
    v.map_values(|r: LogRecord| r@)
}

impl LogRecord {
    /// A log line of the given level.
    pub fn new(level: LogLevel, message: String) -> (r: Self)
        ensures
            r@ == (level, message@),
    {
        LogRecord { level, message }
    }
}

/// Appends `rec` to `records`.
pub fn push_record(records: &mut Vec<LogRecord>, rec: LogRecord)
    ensures
        records_view(final(records)@) == records_view(old(records)@).push(rec@),
{
    records.push(rec);
    proof {
        assert(records_view(records@) =~= records_view(old(records)@).push(rec@));
    }
}

} // verus!
