//! The logging output format setting: `text` or `json`.

use vstd::prelude::*;

use crate::text::{str_eq, trim, trim_end, trim_start, trim_str};

verus! {

/// Available logging output format types.
#[derive(Clone, Copy, Debug, PartialEq, Eq, Structural, Hash)]
pub enum LoggingFormatType {
    Text,
    Json,
}

/// A validated logging output format.
#[derive(Clone, Copy, Debug, PartialEq, Eq, Structural, Hash)]
pub struct LoggingFormat(LoggingFormatType);

/// Why a raw logging format was rejected; each carries the trimmed input.
#[derive(Debug)]
pub enum LoggingFormatError {
    EmptyType(String),
    UnknownFormat(String),
}

/// The configuration name of a format type.
pub open spec fn format_name(t: LoggingFormatType) -> Seq<char> {
    match t {
        LoggingFormatType::Text => "text"@,
        LoggingFormatType::Json => "json"@,
    }
}

/// The format type named by an already trimmed, non-empty word, if any.
pub open spec fn parse_format_name(s: Seq<char>) -> Option<LoggingFormatType> {
    if s == "text"@ {
        Some(LoggingFormatType::Text)
    } else if s == "json"@ {
        Some(LoggingFormatType::Json)
    } else {
        None
    }
}

impl View for LoggingFormat {
    type V = LoggingFormatType;

    closed spec fn view(&self) -> LoggingFormatType {
        self.0
    }
}

impl LoggingFormatError {
    /// The human-readable description of the error.
    pub fn message(&self) -> (r: &'static str)
        ensures
            r@ == match self {
                LoggingFormatError::EmptyType(_) => "empty log format type was specified"@,
                LoggingFormatError::UnknownFormat(_) => "unknown log format type was specified"@,
            },
    {
        match self {
            LoggingFormatError::EmptyType(_) => "empty log format type was specified",
            LoggingFormatError::UnknownFormat(_) => "unknown log format type was specified",
        }
    }
}

impl LoggingFormat {
    /// Validates a raw format: surrounding whitespace is ignored, an empty
    /// value is `EmptyType`, and anything but `text` or `json` is
    /// `UnknownFormat`.
    pub fn new(raw_logging_format: &str) -> (r: Result<Self, LoggingFormatError>)
        ensures
            r is Ok <==> parse_format_name(trim(raw_logging_format@)) is Some,
            r matches Ok(f) ==> parse_format_name(trim(raw_logging_format@)) == Some(f@),
            r matches Err(LoggingFormatError::EmptyType(s)) ==> s@ == trim(raw_logging_format@)
                && s@.len() == 0,
            r matches Err(LoggingFormatError::UnknownFormat(s)) ==> s@ == trim(
                raw_logging_format@,
            ) && s@.len() > 0,
            trim(raw_logging_format@).len() == 0 ==> r matches Err(LoggingFormatError::EmptyType(_)),
    {
        let trimmed = trim_str(raw_logging_format);
        proof {
            reveal_strlit("text");
            reveal_strlit("json");
        }
        if trimmed.unicode_len() == 0 {
            return Err(LoggingFormatError::EmptyType(String::from_str(trimmed)));
        }
        if str_eq(trimmed, "text") {
            Ok(LoggingFormat(LoggingFormatType::Text))
        } else if str_eq(trimmed, "json") {
            Ok(LoggingFormat(LoggingFormatType::Json))
        } else {
            Err(LoggingFormatError::UnknownFormat(String::from_str(trimmed)))
        }
    }

    /// The format used when none or an invalid one is configured: `text`.
    pub fn default() -> (r: Self)
        ensures
            r@ == LoggingFormatType::Text,
    {
        LoggingFormat(LoggingFormatType::Text)
    }

    /// The validated format type.
    pub fn format_type(&self) -> (r: LoggingFormatType)
        ensures
            r == self@,
    {
        self.0
    }

    /// The configuration name of this format (`text` or `json`).
    pub fn as_str(&self) -> (r: &'static str)
        ensures
            r@ == format_name(self@),
    {
        match self.0 {
            LoggingFormatType::Text => "text",
            LoggingFormatType::Json => "json",
        }
    }
}

/// Rendering a format by its name and validating that name gives back the
/// same format: `LoggingFormat::new(f.as_str())` is `Ok(f)`.
pub proof fn lemma_format_name_roundtrip(t: LoggingFormatType)
    ensures
        trim(format_name(t)) == format_name(t),
        parse_format_name(trim(format_name(t))) == Some(t),
{
    reveal_strlit("text");
    reveal_strlit("json");
    let s = format_name(t);
    assert(trim_start(s) == s);
    assert(trim_end(s) == s);
}

} // verus!
