//! The decisions of the tracing backend: its per-crate filter directives
//! and what it reports of the configuration it was set up with.
//!
//! The configured trace level applies to the application crates (the
//! library and server, and the migration binary); noisy dependencies are
//! pinned to quieter levels.

use vstd::prelude::*;

use crate::log_record::{push_record, records_view, LogLevel, LogRecord};
use crate::logging::Logging;
use crate::logging_format::LoggingFormatType;
use crate::logging_trace_level::{trace_level_name, LoggingTraceLevel, LoggingTraceLevelType};

verus! {

/// The directives for the level named `level`.
pub open spec fn directives_for(level: Seq<char>) -> Seq<char> {
    "eas_weather_rs="@ + level + ",eas_migrate="@ + level
        + ",sqlx=warn,hyper=warn,mio=warn,tokio=info,tower=info,tower_http=info,h2=warn,tonic=warn,rustls=warn,rustls_pki_types=warn,want=warn,reqwest=warn"@
}

/// The filter directives for the configured trace level.
pub fn filter_directives(trace_level: &LoggingTraceLevel) -> (r: String)
    ensures
        r@ == directives_for(trace_level_name(trace_level@)),
{
    let level = trace_level.as_str();
    String::from_str("eas_weather_rs=").concat(level).concat(",eas_migrate=").concat(level).concat(
        ",sqlx=warn,hyper=warn,mio=warn,tokio=info,tower=info,tower_http=info,h2=warn,tonic=warn,rustls=warn,rustls_pki_types=warn,want=warn,reqwest=warn",
    )
}

/// The name of a format type as the tracing backend reports it.
pub open spec fn format_type_label(t: LoggingFormatType) -> Seq<char> {
    match t {
        LoggingFormatType::Text => "Text"@,
        LoggingFormatType::Json => "Json"@,
    }
}

/// The name of a trace level type as the tracing backend reports it.
pub open spec fn trace_level_type_label(t: LoggingTraceLevelType) -> Seq<char> {
    match t {
        LoggingTraceLevelType::Error => "Error"@,
        LoggingTraceLevelType::Warn => "Warn"@,
        LoggingTraceLevelType::Info => "Info"@,
        LoggingTraceLevelType::Debug => "Debug"@,
        LoggingTraceLevelType::Trace => "Trace"@,
    }
}

/// What the tracing backend reports of the configuration it was set up
/// with.
pub open spec fn conf_validation_lines(conf: Logging) -> Seq<(LogLevel, Seq<char>)> {
    seq![
        (
            LogLevel::Info,
            "tracing: logging format set to `"@ + format_type_label(conf.format@) + "`"@,
        ),
        (
            LogLevel::Info,
            "tracing: log trace level set to `"@ + trace_level_type_label(conf.trace_level@)
                + "`"@,
        ),
    ]
}

fn format_type_label_str(t: LoggingFormatType) -> (r: &'static str)
    ensures
        r@ == format_type_label(t),
{
    match t {
        LoggingFormatType::Text => "Text",
        LoggingFormatType::Json => "Json",
    }
}

fn trace_level_type_label_str(t: LoggingTraceLevelType) -> (r: &'static str)
    ensures
        r@ == trace_level_type_label(t),
{
    match t {
        LoggingTraceLevelType::Error => "Error",
        LoggingTraceLevelType::Warn => "Warn",
        LoggingTraceLevelType::Info => "Info",
        LoggingTraceLevelType::Debug => "Debug",
        LoggingTraceLevelType::Trace => "Trace",
    }
}

/// The lines the tracing backend logs about the configuration it was set
/// up with.
pub fn conf_validation_report(conf: &Logging) -> (r: Vec<LogRecord>)
    ensures
        records_view(r@) == conf_validation_lines(*conf),
{
    let mut records: Vec<LogRecord> = Vec::new();
    let f = format_type_label_str(conf.format.format_type());
    let msg = String::from_str("tracing: logging format set to `").concat(f).concat("`");
    push_record(&mut records, LogRecord::new(LogLevel::Info, msg));
    let t = trace_level_type_label_str(conf.trace_level.trace_level_type());
    let msg = String::from_str("tracing: log trace level set to `").concat(t).concat("`");
    push_record(&mut records, LogRecord::new(LogLevel::Info, msg));
    assert(records_view(records@) =~= conf_validation_lines(*conf));
    records
}

} // verus!
