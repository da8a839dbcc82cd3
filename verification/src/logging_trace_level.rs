//! The logging trace level setting: `error`, `warn`, `info`, `debug` or
//! `trace`.

use vstd::prelude::*;

use crate::text::{str_eq, trim, trim_end, trim_start, trim_str};

verus! {

/// Available logging trace levels, from least to most verbose.
#[derive(Clone, Copy, Debug, PartialEq, Eq, Structural, Hash)]
pub enum LoggingTraceLevelType {
    Error,
    Warn,
    Info,
    Debug,
    Trace,
}

/// A validated logging trace level.
#[derive(Clone, Copy, Debug, PartialEq, Eq, Structural, Hash)]
pub struct LoggingTraceLevel(LoggingTraceLevelType);

/// Why a raw trace level was rejected; each carries the trimmed input.
#[derive(Debug)]
pub enum LoggingTraceLevelError {
    EmptyTraceLevel(String),
    UnknownTraceLevel(String),
}

/// The configuration name of a trace level.
pub open spec fn trace_level_name(t: LoggingTraceLevelType) -> Seq<char> {
    match t {
        LoggingTraceLevelType::Error => "error"@,
        LoggingTraceLevelType::Warn => "warn"@,
        LoggingTraceLevelType::Info => "info"@,
        LoggingTraceLevelType::Debug => "debug"@,
        LoggingTraceLevelType::Trace => "trace"@,
    }
}

/// The trace level named by an already trimmed word, if any.
pub open spec fn parse_trace_level_name(s: Seq<char>) -> Option<LoggingTraceLevelType> {
    if s == "error"@ {
        Some(LoggingTraceLevelType::Error)
    } else if s == "warn"@ {
        Some(LoggingTraceLevelType::Warn)
    } else if s == "info"@ {
        Some(LoggingTraceLevelType::Info)
    } else if s == "debug"@ {
        Some(LoggingTraceLevelType::Debug)
    } else if s == "trace"@ {
        Some(LoggingTraceLevelType::Trace)
    } else {
        None
    }
}

impl View for LoggingTraceLevel {
    type V = LoggingTraceLevelType;

    closed spec fn view(&self) -> LoggingTraceLevelType {
        self.0
    }
}

impl LoggingTraceLevelError {
    /// The human-readable description of the error.
    pub fn message(&self) -> (r: String)
        ensures
            r@ == match self {
                LoggingTraceLevelError::EmptyTraceLevel(_) => "LRE-1001: empty trace format type was specified"@,
                LoggingTraceLevelError::UnknownTraceLevel(s) => "LRE-1001: unknown trace format type (`"@
                    + s@ + "`) was specified"@,
            },
    {
        match self {
            LoggingTraceLevelError::EmptyTraceLevel(_) => String::from_str(
                "LRE-1001: empty trace format type was specified",
            ),
            LoggingTraceLevelError::UnknownTraceLevel(s) => String::from_str(
                "LRE-1001: unknown trace format type (`",
            ).concat(s.as_str()).concat("`) was specified"),
        }
    }
}

impl LoggingTraceLevel {
    /// Validates a raw trace level: surrounding whitespace is ignored, an
    /// empty value is `EmptyTraceLevel`, and anything but the five level
    /// names is `UnknownTraceLevel`.
    pub fn new(raw_logging_trace_level: &str) -> (r: Result<Self, LoggingTraceLevelError>)
        ensures
            r is Ok <==> parse_trace_level_name(trim(raw_logging_trace_level@)) is Some,
            r matches Ok(l) ==> parse_trace_level_name(trim(raw_logging_trace_level@)) == Some(l@),
            r matches Err(LoggingTraceLevelError::EmptyTraceLevel(s)) ==> s@ == trim(
                raw_logging_trace_level@,
            ) && s@.len() == 0,
            r matches Err(LoggingTraceLevelError::UnknownTraceLevel(s)) ==> s@ == trim(
                raw_logging_trace_level@,
            ) && s@.len() > 0,
            trim(raw_logging_trace_level@).len() == 0 ==> r matches Err(
                LoggingTraceLevelError::EmptyTraceLevel(_),
            ),
    {
        let trimmed = trim_str(raw_logging_trace_level);
        proof {
            reveal_strlit("error");
            reveal_strlit("warn");
            reveal_strlit("info");
            reveal_strlit("debug");
            reveal_strlit("trace");
        }
        if trimmed.unicode_len() == 0 {
            return Err(LoggingTraceLevelError::EmptyTraceLevel(String::from_str(trimmed)));
        }
        if str_eq(trimmed, "error") {
            Ok(LoggingTraceLevel(LoggingTraceLevelType::Error))
        } else if str_eq(trimmed, "warn") {
            Ok(LoggingTraceLevel(LoggingTraceLevelType::Warn))
        } else if str_eq(trimmed, "info") {
            Ok(LoggingTraceLevel(LoggingTraceLevelType::Info))
        } else if str_eq(trimmed, "debug") {
            Ok(LoggingTraceLevel(LoggingTraceLevelType::Debug))
        } else if str_eq(trimmed, "trace") {
            Ok(LoggingTraceLevel(LoggingTraceLevelType::Trace))
        } else {
            Err(LoggingTraceLevelError::UnknownTraceLevel(String::from_str(trimmed)))
        }
    }

    /// The level used when none or an invalid one is configured: `info`.
    pub fn default() -> (r: Self)
        ensures
            r@ == LoggingTraceLevelType::Info,
    {
        LoggingTraceLevel(LoggingTraceLevelType::Info)
    }

    /// The validated trace level type.
    pub fn trace_level_type(&self) -> (r: LoggingTraceLevelType)
        ensures
            r == self@,
    {
        self.0
    }

    /// The configuration name of this level (`error`, ..., `trace`).
    pub fn as_str(&self) -> (r: &'static str)
        ensures
            r@ == trace_level_name(self@),
    {
        match self.0 {
            LoggingTraceLevelType::Error => "error",
            LoggingTraceLevelType::Warn => "warn",
            LoggingTraceLevelType::Info => "info",
            LoggingTraceLevelType::Debug => "debug",
            LoggingTraceLevelType::Trace => "trace",
        }
    }
}

/// Rendering a trace level by its name and validating that name gives back
/// the same level: `LoggingTraceLevel::new(l.as_str())` is `Ok(l)`.
pub proof fn lemma_trace_level_name_roundtrip(t: LoggingTraceLevelType)
    ensures
        trim(trace_level_name(t)) == trace_level_name(t),
        parse_trace_level_name(trim(trace_level_name(t))) == Some(t),
{
    reveal_strlit("error");
    reveal_strlit("warn");
    reveal_strlit("info");
    reveal_strlit("debug");
    reveal_strlit("trace");
    let s = trace_level_name(t);
    assert(trim_start(s) == s);
    assert(trim_end(s) == s);
}

} // verus!
