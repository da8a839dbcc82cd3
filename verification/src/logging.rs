//! The validated logging configuration and the report on its raw input.

use vstd::prelude::*;

use crate::config_issue::{issues_view, push_issue, ConfigIssue, ConfigIssueView};
use crate::log_record::{push_record, records_view, LogLevel, LogRecord};
use crate::logging_format::{
    format_name, parse_format_name, LoggingFormat, LoggingFormatError, LoggingFormatType,
};
use crate::logging_trace_level::{
    parse_trace_level_name, trace_level_name, LoggingTraceLevel, LoggingTraceLevelError,
    LoggingTraceLevelType,
};
use crate::ports::{emit_records, LoggingRepo};
use crate::raw_config::ConfigLogging;
use crate::text::trim;

verus! {

/// The format in effect for a raw setting: the parsed one, or `text` when
/// the setting is absent or invalid.
pub open spec fn effective_format(raw: Option<String>) -> LoggingFormatType {
    match raw {
        Some(s) => match parse_format_name(trim(s@)) {
            Some(t) => t,
            None => LoggingFormatType::Text,
        },
        None => LoggingFormatType::Text,
    }
}

/// The trace level in effect for a raw setting: the parsed one, or `info`
/// when the setting is absent or invalid.
pub open spec fn effective_trace_level(raw: Option<String>) -> LoggingTraceLevelType {
    match raw {
        Some(s) => match parse_trace_level_name(trim(s@)) {
            Some(t) => t,
            None => LoggingTraceLevelType::Info,
        },
        None => LoggingTraceLevelType::Info,
    }
}

/// What is reported about a raw logging format.
pub open spec fn format_report(raw: Option<String>) -> Seq<(LogLevel, Seq<char>)> {
    let dflt = format_name(LoggingFormatType::Text);
    match raw {
        None => seq![
            (
                LogLevel::Warn,
                "config logging format was not specified, setting value to `"@ + dflt + "`"@,
            ),
        ],
        Some(s) => if trim(s@).len() == 0 {
            seq![(LogLevel::Warn, "config logging format type is empty, setting to `"@ + dflt + "`"@)]
        } else if parse_format_name(trim(s@)) is None {
            seq![
                (
                    LogLevel::Warn,
                    "config logging format of unknown type `"@ + s@ + "`, setting value to `"@
                        + dflt + "`"@,
                ),
            ]
        } else {
            seq![]
        },
    }
}

/// What is reported about a raw logging trace level.
pub open spec fn trace_level_report(raw: Option<String>) -> Seq<(LogLevel, Seq<char>)> {
    let dflt = trace_level_name(LoggingTraceLevelType::Info);
    match raw {
        None => seq![
            (
                LogLevel::Warn,
                "config logging trace level was not specified, setting value to `"@ + dflt
                    + "`"@,
            ),
        ],
        Some(s) => if trim(s@).len() == 0 {
            seq![
                (
                    LogLevel::Warn,
                    "config logging trace level is empty, setting to `"@ + dflt + "`"@,
                ),
            ]
        } else if parse_trace_level_name(trim(s@)) is None {
            seq![
                (
                    LogLevel::Warn,
                    "config logging trace level of unknown type `"@ + s@
                        + "`, setting value to `"@ + dflt + "`"@,
                ),
            ]
        } else {
            seq![]
        },
    }
}

/// The issues with a raw setting whose default is named `dflt` and whose
/// value is accepted when `accepted` holds of it.
pub open spec fn setting_issues(
    key: Seq<char>,
    raw: Option<String>,
    accepted: bool,
    dflt: Seq<char>,
) -> Seq<ConfigIssueView> {
    match raw {
        None => seq![ConfigIssueView::NotSpecified { key: key, default: dflt }],
        Some(s) => if accepted {
            seq![]
        } else {
            seq![ConfigIssueView::Invalid { key: key, value: s@, default: dflt }]
        },
    }
}

/// The issues with the raw logging settings.
pub open spec fn logging_issues(raw: ConfigLogging) -> Seq<ConfigIssueView> {
    setting_issues(
        "logging.format"@,
        raw.format,
        raw.format matches Some(s) && parse_format_name(trim(s@)) is Some,
        format_name(LoggingFormatType::Text),
    ) + setting_issues(
        "logging.trace_level"@,
        raw.trace_level,
        raw.trace_level matches Some(s) && parse_trace_level_name(trim(s@)) is Some,
        trace_level_name(LoggingTraceLevelType::Info),
    )
}

/// Configuration for logging.
#[derive(Clone, Copy, Debug)]
pub struct Logging {
    pub format: LoggingFormat,
    pub trace_level: LoggingTraceLevel,
}

impl Logging {
    /// Validates the raw logging settings; a missing or invalid setting
    /// falls back to its default.
    pub fn new(conf: &ConfigLogging) -> (r: Self)
        ensures
            r.format@ == effective_format(conf.format),
            r.trace_level@ == effective_trace_level(conf.trace_level),
            r.format@ == match conf.format {
                Some(s) => match parse_format_name(trim(s@)) {
                    Some(t) => t,
                    None => LoggingFormatType::Text,
                },
                None => LoggingFormatType::Text,
            },
            r.trace_level@ == match conf.trace_level {
                Some(s) => match parse_trace_level_name(trim(s@)) {
                    Some(t) => t,
                    None => LoggingTraceLevelType::Info,
                },
                None => LoggingTraceLevelType::Info,
            },
    {
        let format = match &conf.format {
            Some(raw_log_format) => match LoggingFormat::new(raw_log_format.as_str()) {
                Ok(f) => f,
                Err(_) => LoggingFormat::default(),
            },
            None => LoggingFormat::default(),
        };
        let trace_level = match &conf.trace_level {
            Some(raw_trace_level) => match LoggingTraceLevel::new(raw_trace_level.as_str()) {
                Ok(l) => l,
                Err(_) => LoggingTraceLevel::default(),
            },
            None => LoggingTraceLevel::default(),
        };
        Logging { format, trace_level }
    }

    /// The warnings owed on the raw logging settings: one for each setting
    /// that is absent, empty or unknown, naming the default put in its place.
    pub fn raw_logging_config_report(&self, raw_log_conf: &ConfigLogging) -> (r: Vec<LogRecord>)
        ensures
            records_view(r@) == format_report(raw_log_conf.format) + trace_level_report(
                raw_log_conf.trace_level,
            ),
    {
        let mut records: Vec<LogRecord> = Vec::new();
        let dflt_format = LoggingFormat::default();
        match &raw_log_conf.format {
            Some(raw_log_format) => {
                match LoggingFormat::new(raw_log_format.as_str()) {
                    Ok(_) => {},
                    Err(LoggingFormatError::EmptyType(_)) => {
                        let msg = String::from_str(
                            "config logging format type is empty, setting to `",
                        ).concat(dflt_format.as_str()).concat("`");
                        push_record(&mut records, LogRecord::new(LogLevel::Warn, msg));
                    },
                    Err(LoggingFormatError::UnknownFormat(_)) => {
                        let msg = String::from_str("config logging format of unknown type `").concat(
                            raw_log_format.as_str(),
                        ).concat("`, setting value to `").concat(dflt_format.as_str()).concat("`");
                        push_record(&mut records, LogRecord::new(LogLevel::Warn, msg));
                    },
                }
            },
            None => {
                let msg = String::from_str(
                    "config logging format was not specified, setting value to `",
                ).concat(dflt_format.as_str()).concat("`");
                push_record(&mut records, LogRecord::new(LogLevel::Warn, msg));
            },
        }
        assert(records_view(records@) =~= format_report(raw_log_conf.format));
        let dflt_level = LoggingTraceLevel::default();
        match &raw_log_conf.trace_level {
            Some(raw_trace_level) => {
                match LoggingTraceLevel::new(raw_trace_level.as_str()) {
                    Ok(_) => {},
                    Err(LoggingTraceLevelError::EmptyTraceLevel(_)) => {
                        let msg = String::from_str(
                            "config logging trace level is empty, setting to `",
                        ).concat(dflt_level.as_str()).concat("`");
                        push_record(&mut records, LogRecord::new(LogLevel::Warn, msg));
                    },
                    Err(LoggingTraceLevelError::UnknownTraceLevel(_)) => {
                        let msg = String::from_str(
                            "config logging trace level of unknown type `",
                        ).concat(raw_trace_level.as_str()).concat("`, setting value to `").concat(
                            dflt_level.as_str(),
                        ).concat("`");
                        push_record(&mut records, LogRecord::new(LogLevel::Warn, msg));
                    },
                }
            },
            None => {
                let msg = String::from_str(
                    "config logging trace level was not specified, setting value to `",
                ).concat(dflt_level.as_str()).concat("`");
                push_record(&mut records, LogRecord::new(LogLevel::Warn, msg));
            },
        }
        assert(records_view(records@) =~= format_report(raw_log_conf.format) + trace_level_report(
            raw_log_conf.trace_level,
        ));
        records
    }

    /// The issues with the raw logging settings: for each of the format and
    /// the trace level, `NotSpecified` when it is absent and `Invalid` when
    /// it is rejected, naming the default put in its place.
    pub fn raw_logging_config_issues(raw: &ConfigLogging) -> (r: Vec<ConfigIssue>)
        ensures
            issues_view(r@) == logging_issues(*raw),
    {
        let mut issues: Vec<ConfigIssue> = Vec::new();
        match &raw.format {
            Some(raw_log_format) => {
                if LoggingFormat::new(raw_log_format.as_str()).is_err() {
                    push_issue(
                        &mut issues,
                        ConfigIssue::Invalid {
                            key: "logging.format",
                            value: raw_log_format.clone(),
                            default: String::from_str(LoggingFormat::default().as_str()),
                        },
                    );
                }
            },
            None => {
                push_issue(
                    &mut issues,
                    ConfigIssue::NotSpecified {
                        key: "logging.format",
                        default: String::from_str(LoggingFormat::default().as_str()),
                    },
                );
            },
        }
        let ghost first = issues_view(issues@);
        match &raw.trace_level {
            Some(raw_trace_level) => {
                if LoggingTraceLevel::new(raw_trace_level.as_str()).is_err() {
                    push_issue(
                        &mut issues,
                        ConfigIssue::Invalid {
                            key: "logging.trace_level",
                            value: raw_trace_level.clone(),
                            default: String::from_str(LoggingTraceLevel::default().as_str()),
                        },
                    );
                }
            },
            None => {
                push_issue(
                    &mut issues,
                    ConfigIssue::NotSpecified {
                        key: "logging.trace_level",
                        default: String::from_str(LoggingTraceLevel::default().as_str()),
                    },
                );
            },
        }
        assert(issues_view(issues@) =~= logging_issues(*raw));
        issues
    }

    /// Reports on the raw logging settings through `log_serv`: a warning for
    /// each setting that is absent, empty or unknown; returns the records it
    /// logged.
    pub fn validate_raw_logging_config<L: LoggingRepo>(
        &self,
        log_serv: &L,
        raw_log_conf: &ConfigLogging,
    ) -> (r: Vec<LogRecord>)
        ensures
            records_view(r@) == format_report(raw_log_conf.format) + trace_level_report(
                raw_log_conf.trace_level,
            ),
    {
        let records = self.raw_logging_config_report(raw_log_conf);
        emit_records(log_serv, "eas_weather_rs::logging", &records);
        records
    }
}

/// A logging setting that is absent, empty or not a known name falls back
/// to its default (`text` for the format, `info` for the trace level), and
/// a known name, with surrounding whitespace ignored, is kept; the default
/// put in place is the one the warning on the setting names.
pub proof fn lemma_logging_fallbacks(raw: ConfigLogging)
    ensures
        effective_format(raw.format) == match raw.format {
            Some(s) => match parse_format_name(trim(s@)) {
                Some(t) => t,
                None => LoggingFormatType::Text,
            },
            None => LoggingFormatType::Text,
        },
        effective_trace_level(raw.trace_level) == match raw.trace_level {
            Some(s) => match parse_trace_level_name(trim(s@)) {
                Some(t) => t,
                None => LoggingTraceLevelType::Info,
            },
            None => LoggingTraceLevelType::Info,
        },
        format_report(raw.format).len() > 0 ==> format_report(raw.format).last().1.subrange(
            format_report(raw.format).last().1.len() - format_name(effective_format(raw.format)).len() - 1,
            format_report(raw.format).last().1.len() as int,
        ) == format_name(effective_format(raw.format)) + "`"@,
        trace_level_report(raw.trace_level).len() > 0 ==> trace_level_report(raw.trace_level).last().1.subrange(
            trace_level_report(raw.trace_level).last().1.len() - trace_level_name(effective_trace_level(raw.trace_level)).len() - 1,
            trace_level_report(raw.trace_level).last().1.len() as int,
        ) == trace_level_name(effective_trace_level(raw.trace_level)) + "`"@,
{
    reveal_strlit("text");
    reveal_strlit("info");
    reveal_strlit("`");
}

} // verus!
