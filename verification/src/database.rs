//! The validated database configuration and the report on its raw input.

use vstd::prelude::*;

use crate::db_conn_retry_init_delay_secs::DbConnRetryInitDelaySecs;
use crate::db_conn_string::{default_conn_string, DbConnectionString, DbConnectionStringError};
use crate::db_min_connections::DbMinConnections;
use crate::log_record::{push_record, records_view, LogLevel, LogRecord};
use crate::ports::{emit_records, LoggingRepo};
use crate::raw_config::ConfigDatabase;
use crate::text::{decimal, decimal_string};

verus! {

/// The number of connection attempts made when none is configured: 5.
pub const DEFAULT_CONN_MAX_RETRIES: u8 = 5;

/// The pool acquire timeout used when none is configured: 30 seconds, as
/// sqlx uses for a pool by default.
pub const DEFAULT_CONN_ACQUIRE_TIMEOUT_SECS: u16 = 30;

/// The pool idle timeout used when none is configured: 600 seconds, as
/// sqlx uses for a pool by default.
pub const DEFAULT_CONN_IDLE_TIMEOUT_SECS: u32 = 600;

/// The pool connection lifetime used when none is configured: 1800
/// seconds, as sqlx uses for a pool by default.
pub const DEFAULT_CONN_MAX_LIFETIME_SECS: u32 = 1800;

/// The maximum number of pooled connections used when none is configured:
/// 10, as sqlx uses for a pool by default.
pub const DEFAULT_MAX_CONNECTIONS: u32 = 10;

/// The validated database configuration.
///
/// Every value of each numeric setting is accepted: a raw setting takes its
/// value when present and its default when absent, and none is ever
/// rejected.
#[derive(Clone, Debug)]
pub struct Database {
    pub conn_string: DbConnectionString,
    pub conn_max_retries: u8,
    pub conn_retry_init_delay_secs: DbConnRetryInitDelaySecs,
    pub conn_acquire_timeout_secs: u16,
    pub conn_idle_timeout_secs: u32,
    pub conn_max_lifetime_secs: u32,
    pub min_connections: DbMinConnections,
    pub max_connections: u32,
}

/// The connection string in effect for a load outcome: the loaded one, or
/// the default when no file is configured or loading failed.
pub open spec fn effective_conn_string(
    load: Option<Result<DbConnectionString, DbConnectionStringError>>,
) -> Seq<char> {
    match load {
        Some(Ok(c)) => c@,
        _ => default_conn_string(),
    }
}

/// What is reported about the connection string, given the outcome of
/// loading it (`None` when no file is configured).
pub open spec fn conn_string_report(
    load: Option<Result<DbConnectionString, DbConnectionStringError>>,
) -> Seq<(LogLevel, Seq<char>)> {
    let set_to = (
        LogLevel::Warn,
        "config database connection string will be set to `"@ + default_conn_string() + "`"@,
    );
    match load {
        None => seq![
            (
                LogLevel::Warn,
                "config database connection string file was not specified, setting database connection string to `"@
                    + default_conn_string() + "`"@,
            ),
        ],
        Some(Ok(_)) => seq![],
        Some(Err(DbConnectionStringError::BadFileLoad(e))) => seq![
            (LogLevel::Error, "config database load connection file error: "@ + e@),
            set_to,
        ],
        Some(Err(DbConnectionStringError::EmptyConnectionString(_))) => seq![
            (LogLevel::Warn, "config database connection string was empty"@),
            set_to,
        ],
        Some(Err(DbConnectionStringError::EmptyFilePath(_))) => seq![
            (LogLevel::Warn, "config database connection file path was empty"@),
            set_to,
        ],
    }
}

/// What is reported about the database setting named `label` (as in
/// "connection max retries"): when it is absent, a warning that its default
/// `dflt` is used; nothing otherwise, as every present value is accepted.
pub open spec fn not_specified_report(label: Seq<char>, absent: bool, dflt: nat) -> Seq<
    (LogLevel, Seq<char>),
> {
    if absent {
        seq![
            (
                LogLevel::Warn,
                "config database "@ + label + " was not specified, setting to default `"@
                    + decimal(dflt) + "`"@,
            ),
        ]
    } else {
        seq![]
    }
}

/// What is reported about the raw database settings, in the order they are
/// checked: connection string, max retries, retry initial delay, acquire,
/// idle and lifetime timeouts, min connections, max connections.
pub open spec fn database_report(
    raw: ConfigDatabase,
    load: Option<Result<DbConnectionString, DbConnectionStringError>>,
) -> Seq<(LogLevel, Seq<char>)> {
    conn_string_report(load)
        + not_specified_report(
        "connection max retries"@,
        raw.conn_max_retries is None,
        DEFAULT_CONN_MAX_RETRIES as nat,
    ) + not_specified_report(
        "connection retry initial delay seconds"@,
        raw.conn_retry_init_delay_secs is None,
        1,
    ) + not_specified_report(
        "connection acquire timeout seconds"@,
        raw.conn_acquire_timeout_secs is None,
        DEFAULT_CONN_ACQUIRE_TIMEOUT_SECS as nat,
    ) + not_specified_report(
        "connection idle timeout seconds"@,
        raw.conn_idle_timeout_secs is None,
        DEFAULT_CONN_IDLE_TIMEOUT_SECS as nat,
    ) + not_specified_report(
        "connection max lifetime seconds"@,
        raw.conn_max_lifetime_secs is None,
        DEFAULT_CONN_MAX_LIFETIME_SECS as nat,
    ) + not_specified_report("min connections"@, raw.min_connections is None, 1)
        + not_specified_report(
        "max connections"@,
        raw.max_connections is None,
        DEFAULT_MAX_CONNECTIONS as nat,
    )
}

fn push_not_specified(records: &mut Vec<LogRecord>, label: &str, absent: bool, dflt: u64)
    ensures
        records_view(final(records)@) == records_view(old(records)@) + not_specified_report(
            label@,
            absent,
            dflt as nat,
        ),
{
    if absent {
        let d = decimal_string(dflt);
        let msg = String::from_str("config database ").concat(label).concat(
            " was not specified, setting to default `",
        ).concat(d.as_str()).concat("`");
        push_record(records, LogRecord::new(LogLevel::Warn, msg));
    }
    assert(records_view(records@) =~= records_view(old(records)@) + not_specified_report(
        label@,
        absent,
        dflt as nat,
    ));
}

impl Database {
    /// The database configuration from the raw settings and the outcome of
    /// loading the connection string file (`None` when no file is
    /// configured); each missing or rejected setting takes its default.
    pub fn new(
        conf: &ConfigDatabase,
        conn_string_load: &Option<Result<DbConnectionString, DbConnectionStringError>>,
    ) -> (r: Self)
        ensures
            r.conn_string@ == effective_conn_string(*conn_string_load),
            r.conn_max_retries == match conf.conn_max_retries {
                Some(v) => v,
                None => DEFAULT_CONN_MAX_RETRIES,
            },
            r.conn_retry_init_delay_secs@ == match conf.conn_retry_init_delay_secs {
                Some(d) => d,
                None => 1,
            },
            r.conn_acquire_timeout_secs == match conf.conn_acquire_timeout_secs {
                Some(v) => v,
                None => DEFAULT_CONN_ACQUIRE_TIMEOUT_SECS,
            },
            r.conn_idle_timeout_secs == match conf.conn_idle_timeout_secs {
                Some(v) => v,
                None => DEFAULT_CONN_IDLE_TIMEOUT_SECS,
            },
            r.conn_max_lifetime_secs == match conf.conn_max_lifetime_secs {
                Some(v) => v,
                None => DEFAULT_CONN_MAX_LIFETIME_SECS,
            },
            r.min_connections@ == match conf.min_connections {
                Some(m) => m,
                None => 1,
            },
            r.max_connections == match conf.max_connections {
                Some(v) => v,
                None => DEFAULT_MAX_CONNECTIONS,
            },
    {
        let conn_string = match conn_string_load {
            Some(Ok(c)) => c.clone(),
            _ => DbConnectionString::default(),
        };
        let conn_retry_init_delay_secs = match &conf.conn_retry_init_delay_secs {
            Some(raw) => match DbConnRetryInitDelaySecs::new(raw) {
                Ok(d) => d,
                Err(_) => DbConnRetryInitDelaySecs::default(),
            },
            None => DbConnRetryInitDelaySecs::default(),
        };
        let min_connections = match &conf.min_connections {
            Some(raw) => match DbMinConnections::new(raw) {
                Ok(m) => m,
                Err(_) => DbMinConnections::default(),
            },
            None => DbMinConnections::default(),
        };
        let conn_max_retries = match conf.conn_max_retries {
            Some(v) => v,
            None => DEFAULT_CONN_MAX_RETRIES,
        };
        let conn_acquire_timeout_secs = match conf.conn_acquire_timeout_secs {
            Some(v) => v,
            None => DEFAULT_CONN_ACQUIRE_TIMEOUT_SECS,
        };
        let conn_idle_timeout_secs = match conf.conn_idle_timeout_secs {
            Some(v) => v,
            None => DEFAULT_CONN_IDLE_TIMEOUT_SECS,
        };
        let conn_max_lifetime_secs = match conf.conn_max_lifetime_secs {
            Some(v) => v,
            None => DEFAULT_CONN_MAX_LIFETIME_SECS,
        };
        let max_connections = match conf.max_connections {
            Some(v) => v,
            None => DEFAULT_MAX_CONNECTIONS,
        };
        Database {
            conn_string,
            conn_max_retries,
            conn_retry_init_delay_secs,
            conn_acquire_timeout_secs,
            conn_idle_timeout_secs,
            conn_max_lifetime_secs,
            min_connections,
            max_connections,
        }
    }

    /// The messages owed on the raw database settings: for the connection
    /// string, why it could not be loaded and the default put in its place,
    /// and for each other setting that is absent, the default put in its
    /// place.
    pub fn raw_database_config_report(
        &self,
        raw_db_conf: &ConfigDatabase,
        conn_string_load: &Option<Result<DbConnectionString, DbConnectionStringError>>,
    ) -> (r: Vec<LogRecord>)
        ensures
            records_view(r@) == database_report(*raw_db_conf, *conn_string_load),
    {
        let mut records: Vec<LogRecord> = Vec::new();
        let dflt_conn = DbConnectionString::default();
        match conn_string_load {
            None => {
                let msg = String::from_str(
                    "config database connection string file was not specified, setting database connection string to `",
                ).concat(dflt_conn.get()).concat("`");
                push_record(&mut records, LogRecord::new(LogLevel::Warn, msg));
            },
            Some(Ok(_)) => {},
            Some(Err(err)) => {
                match err {
                    DbConnectionStringError::BadFileLoad(e) => {
                        let msg = String::from_str(
                            "config database load connection file error: ",
                        ).concat(e.as_str());
                        push_record(&mut records, LogRecord::new(LogLevel::Error, msg));
                    },
                    DbConnectionStringError::EmptyConnectionString(_) => {
                        let msg = String::from_str("config database connection string was empty");
                        push_record(&mut records, LogRecord::new(LogLevel::Warn, msg));
                    },
                    DbConnectionStringError::EmptyFilePath(_) => {
                        let msg = String::from_str(
                            "config database connection file path was empty",
                        );
                        push_record(&mut records, LogRecord::new(LogLevel::Warn, msg));
                    },
                }
                let msg = String::from_str(
                    "config database connection string will be set to `",
                ).concat(dflt_conn.get()).concat("`");
                push_record(&mut records, LogRecord::new(LogLevel::Warn, msg));
            },
        }
        assert(records_view(records@) =~= conn_string_report(*conn_string_load));
        push_not_specified(
            &mut records,
            "connection max retries",
            raw_db_conf.conn_max_retries.is_none(),
            DEFAULT_CONN_MAX_RETRIES as u64,
        );
        push_not_specified(
            &mut records,
            "connection retry initial delay seconds",
            raw_db_conf.conn_retry_init_delay_secs.is_none(),
            DbConnRetryInitDelaySecs::default().get(),
        );
        push_not_specified(
            &mut records,
            "connection acquire timeout seconds",
            raw_db_conf.conn_acquire_timeout_secs.is_none(),
            DEFAULT_CONN_ACQUIRE_TIMEOUT_SECS as u64,
        );
        push_not_specified(
            &mut records,
            "connection idle timeout seconds",
            raw_db_conf.conn_idle_timeout_secs.is_none(),
            DEFAULT_CONN_IDLE_TIMEOUT_SECS as u64,
        );
        push_not_specified(
            &mut records,
            "connection max lifetime seconds",
            raw_db_conf.conn_max_lifetime_secs.is_none(),
            DEFAULT_CONN_MAX_LIFETIME_SECS as u64,
        );
        push_not_specified(
            &mut records,
            "min connections",
            raw_db_conf.min_connections.is_none(),
            DbMinConnections::default().get() as u64,
        );
        push_not_specified(
            &mut records,
            "max connections",
            raw_db_conf.max_connections.is_none(),
            DEFAULT_MAX_CONNECTIONS as u64,
        );
        records
    }

    /// Reports on the raw database settings through `log_serv`, for the
    /// outcome of loading the connection string that is passed in, and
    /// returns the records it logged.
    pub fn validate_raw_database_config<L: LoggingRepo>(
        &self,
        log_serv: &L,
        raw_db_conf: &ConfigDatabase,
        conn_string_load: &Option<Result<DbConnectionString, DbConnectionStringError>>,
    ) -> (r: Vec<LogRecord>)
        ensures
            records_view(r@) == database_report(*raw_db_conf, *conn_string_load),
    {
        let records = self.raw_database_config_report(raw_db_conf, conn_string_load);
        emit_records(log_serv, "eas_weather_rs::database", &records);
        records
    }
}

/// The number of lines owed on the connection string: none when it was
/// loaded, one when no file is configured, two (the failure and the default
/// put in place) when loading failed.
pub open spec fn conn_string_line_count(
    load: Option<Result<DbConnectionString, DbConnectionStringError>>,
) -> nat {
    match load {
        None => 1,
        Some(Ok(_)) => 0,
        Some(Err(_)) => 2,
    }
}

/// One for an absent setting, none for a present one.
pub open spec fn absent_count<T>(o: Option<T>) -> nat {
    if o is None {
        1
    } else {
        0
    }
}

/// The database report has one line per absent setting, none for a present
/// one, and for the connection string none when it was loaded, one when no
/// file is configured and two when loading failed. So with the connection
/// string loaded and every setting given, nothing is reported; and a file
/// that could not be read is reported with its error first.
pub proof fn lemma_database_report_lines(
    raw: ConfigDatabase,
    load: Option<Result<DbConnectionString, DbConnectionStringError>>,
)
    ensures
        database_report(raw, load).len() == conn_string_line_count(load) + absent_count(
            raw.conn_max_retries,
        ) + absent_count(raw.conn_retry_init_delay_secs) + absent_count(
            raw.conn_acquire_timeout_secs,
        ) + absent_count(raw.conn_idle_timeout_secs) + absent_count(raw.conn_max_lifetime_secs)
            + absent_count(raw.min_connections) + absent_count(raw.max_connections),
        load matches Some(Err(DbConnectionStringError::BadFileLoad(e))) ==> conn_string_report(
            load,
        )[0] == (LogLevel::Error, "config database load connection file error: "@ + e@),
{
}

} // verus!
