//! The database connection string, read from a file whose path is
//! configured.
//!
//! Loading goes in two steps around the file read, which the caller makes:
//! `file_path` checks the configured path and `from_file_contents` checks
//! what the read gave.

use vstd::prelude::*;

use crate::text::{trim, trim_str};

verus! {

/// A validated, non-empty database connection string.
#[derive(Debug)]
pub struct DbConnectionString(String);

/// Why a connection string could not be loaded.
#[derive(Debug)]
pub enum DbConnectionStringError {
    /// The file held nothing but whitespace.
    EmptyConnectionString(String),
    /// The file could not be read; carries the reason.
    BadFileLoad(String),
    /// The configured path was blank.
    EmptyFilePath(String),
}

/// The connection string used when none can be loaded.
pub open spec fn default_conn_string() -> Seq<char> {
    "mysql://root@localhost:3306/eas-weather-rs"@
}

impl View for DbConnectionString {
    type V = Seq<char>;

    closed spec fn view(&self) -> Seq<char> {
        self.0@
    }
}

impl Clone for DbConnectionString {
    fn clone(&self) -> (r: Self)
        ensures
            r@ == self@,
    {
        DbConnectionString(self.0.clone())
    }
}

impl DbConnectionStringError {
    /// The human-readable description of the error.
    pub fn message(&self) -> (r: &'static str)
        ensures
            r@ == match self {
                DbConnectionStringError::EmptyConnectionString(_) => "database connection string was empty"@,
                DbConnectionStringError::BadFileLoad(_) => "database connection string could not be loaded from file"@,
                DbConnectionStringError::EmptyFilePath(_) => "database connection string file path was empty"@,
            },
    {
        match self {
            DbConnectionStringError::EmptyConnectionString(_) => "database connection string was empty",
            DbConnectionStringError::BadFileLoad(_) => "database connection string could not be loaded from file",
            DbConnectionStringError::EmptyFilePath(_) => "database connection string file path was empty",
        }
    }
}

impl DbConnectionString {
    /// The path to read: the configured path without surrounding
    /// whitespace, or `EmptyFilePath` when that is empty.
    pub fn file_path(raw_conn_url_file: &str) -> (r: Result<String, DbConnectionStringError>)
        ensures
            if trim(raw_conn_url_file@).len() == 0 {
                r matches Err(DbConnectionStringError::EmptyFilePath(e)) && e@.len() == 0
            } else {
                r matches Ok(p) && p@ == trim(raw_conn_url_file@)
            },
    {
        let trimmed = trim_str(raw_conn_url_file);
        if trimmed.unicode_len() == 0 {
            return Err(DbConnectionStringError::EmptyFilePath(String::new()));
        }
        Ok(String::from_str(trimmed))
    }

    /// The connection string from the outcome of reading the file: a read
    /// failure is `BadFileLoad` with its reason, contents that are blank are
    /// `EmptyConnectionString`, and otherwise the contents without
    /// surrounding whitespace.
    pub fn from_file_contents(read: Result<String, String>) -> (r: Result<
        Self,
        DbConnectionStringError,
    >)
        ensures
            match read {
                Err(e) => r matches Err(DbConnectionStringError::BadFileLoad(m)) && m@ == e@,
                Ok(c) => if trim(c@).len() == 0 {
                    r matches Err(DbConnectionStringError::EmptyConnectionString(m)) && m@.len()
                        == 0
                } else {
                    r matches Ok(s) && s@ == trim(c@)
                },
            },
    {
        match read {
            Err(e) => Err(DbConnectionStringError::BadFileLoad(e)),
            Ok(contents) => {
                let trimmed = trim_str(contents.as_str());
                if trimmed.unicode_len() == 0 {
                    Err(DbConnectionStringError::EmptyConnectionString(String::new()))
                } else {
                    Ok(DbConnectionString(String::from_str(trimmed)))
                }
            },
        }
    }

    /// `mysql://root@localhost:3306/eas-weather-rs`.
    pub fn default() -> (r: Self)
        ensures
            r@ == default_conn_string(),
    {
        DbConnectionString(String::from_str("mysql://root@localhost:3306/eas-weather-rs"))
    }

    /// The connection string.
    pub fn get(&self) -> (r: &str)
        ensures
            r@ == self@,
    {
        self.0.as_str()
    }
}

} // verus!
