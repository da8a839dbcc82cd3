//! The decisions of the MySQL database adaptor: reading the connection
//! string, what it reports of its configuration, and what it logs around
//! the connection pool.

use vstd::prelude::*;

use crate::database::Database;
use crate::log_record::{push_record, records_view, LogLevel, LogRecord};
use crate::text::{decimal, decimal_string};

verus! {

/// What a MySQL connection string designates: the server, the account and
/// the database, if one is named.
#[derive(Clone, Debug)]
pub struct MySqlConnSummary {
    pub host: String,
    pub port: u16,
    pub username: String,
    pub database: Option<String>,
}

impl View for MySqlConnSummary {
    type V = (Seq<char>, u16, Seq<char>, Option<Seq<char>>);

    open spec fn view(&self) -> (Seq<char>, u16, Seq<char>, Option<Seq<char>>) {
        (
            self.host@,
            self.port,
            self.username@,
            match self.database {
                Some(d) => Some(d@),
                None => None,
            },
        )
    }
}

/// The outcome of reading a connection string, by its view.
pub open spec fn parse_outcome_view(r: Result<MySqlConnSummary, String>) -> Result<
    (Seq<char>, u16, Seq<char>, Option<Seq<char>>),
    Seq<char>,
> {
    match r {
        Ok(s) => Ok(s@),
        Err(e) => Err(e@),
    }
}

/// How sqlx reads a MySQL connection URL: the host, port, user name and
/// database it designates, or the text of the error it reports.
pub uninterp spec fn mysql_url_parse(conn: Seq<char>) -> Result<
    (Seq<char>, u16, Seq<char>, Option<Seq<char>>),
    Seq<char>,
>;

/// Parses `conn` with sqlx's `FromStr` for `MySqlConnectOptions` and reads
/// back `get_host`, `get_port`, `get_username` and `get_database`, or the
/// error's `Display` text. The result is trusted to be `mysql_url_parse` of
/// the string; what that is on given strings is not stated.
#[verifier::external_body]
fn parse_mysql_url(conn: &str) -> (r: Result<MySqlConnSummary, String>)
    ensures
        parse_outcome_view(r) == mysql_url_parse(conn@),
{
    match conn.parse::<sqlx::mysql::MySqlConnectOptions>() {
        Ok(o) => Ok(MySqlConnSummary {
            host: o.get_host().to_string(),
            port: o.get_port(),
            username: o.get_username().to_string(),
            database: o.get_database().map(|d| d.to_string()),
        }),
        Err(e) => Err(e.to_string()),
    }
}

/// The line logged when the connection string cannot be read.
pub open spec fn parse_failure_message(err: Seq<char>) -> Seq<char> {
    "unable to parse connection string - error: "@ + err
}

/// What the adaptor keeps and logs for a parse outcome: the options when the
/// string was read, nothing and an error line when it was not.
pub fn conn_options_outcome(parsed: Result<MySqlConnSummary, String>) -> (r: (
    Option<MySqlConnSummary>,
    Vec<LogRecord>,
))
    ensures
        match parsed {
            Ok(s) => r.0 == Some(s) && r.1@.len() == 0,
            Err(e) => r.0 is None && records_view(r.1@) == seq![
                (LogLevel::Error, parse_failure_message(e@)),
            ],
        },
{
    let mut records: Vec<LogRecord> = Vec::new();
    match parsed {
        Ok(s) => (Some(s), records),
        Err(e) => {
            let msg = String::from_str("unable to parse connection string - error: ").concat(
                e.as_str(),
            );
            push_record(&mut records, LogRecord::new(LogLevel::Error, msg));
            assert(records_view(records@) =~= seq![
                (LogLevel::Error, parse_failure_message(e@)),
            ]);
            (None, records)
        },
    }
}

/// Reads the configured connection string into connection options, as the
/// adaptor does when it is set up: the options when sqlx reads the string,
/// otherwise none and the error line.
pub fn read_conn_options(conf_db: &Database) -> (r: (Option<MySqlConnSummary>, Vec<LogRecord>))
    ensures
        match mysql_url_parse(conf_db.conn_string@) {
            Ok(v) => (r.0 matches Some(s) && s@ == v) && r.1@.len() == 0,
            Err(e) => r.0 is None && records_view(r.1@) == seq![
                (LogLevel::Error, parse_failure_message(e)),
            ],
        },
{
    let parsed = parse_mysql_url(conf_db.conn_string.get());
    conn_options_outcome(parsed)
}

/// The text naming the connection target: `user@host:port`, then `/` and
/// the database when one is named.
pub open spec fn conn_target(s: (Seq<char>, u16, Seq<char>, Option<Seq<char>>)) -> Seq<char> {
    s.2 + "@"@ + s.0 + ":"@ + decimal(s.1 as nat) + match s.3 {
        Some(d) => "/"@ + d,
        None => Seq::<char>::empty(),
    }
}

/// What the MySQL adaptor reports of its configuration.
pub open spec fn mysql_config_report(
    opts: Option<(Seq<char>, u16, Seq<char>, Option<Seq<char>>)>,
    conf: Database,
) -> Seq<(LogLevel, Seq<char>)> {
    let first = match opts {
        Some(s) => (LogLevel::Info, "xsqlx_conn_opt="@ + conn_target(s)),
        None => (LogLevel::Warn, "database MySQL options were not set successfully"@),
    };
    seq![
        first,
        (LogLevel::Info, "xsqlx_conn_max_retries="@ + decimal(conf.conn_max_retries as nat)),
        (
            LogLevel::Info,
            "xsqlx_conn_retry_init_delay_secs="@ + decimal(conf.conn_retry_init_delay_secs@ as nat),
        ),
        (
            LogLevel::Info,
            "xsqlx_conn_acquire_timeout_secs="@ + decimal(conf.conn_acquire_timeout_secs as nat),
        ),
        (
            LogLevel::Info,
            "xsqlx_conn_idle_timeout_secs="@ + decimal(conf.conn_idle_timeout_secs as nat),
        ),
        (
            LogLevel::Info,
            "xsqlx_conn_max_lifetime_secs="@ + decimal(conf.conn_max_lifetime_secs as nat),
        ),
        (LogLevel::Info, "xsqlx_min_connections="@ + decimal(conf.min_connections@ as nat)),
        (LogLevel::Info, "xsqlx_max_connections="@ + decimal(conf.max_connections as nat)),
    ]
}

/// The view of optional connection options.
pub open spec fn opts_view(o: Option<MySqlConnSummary>) -> Option<
    (Seq<char>, u16, Seq<char>, Option<Seq<char>>),
> {
    match o {
        Some(s) => Some(s@),
        None => None,
    }
}

fn conn_target_string(s: &MySqlConnSummary) -> (r: String)
    ensures
        r@ == conn_target(s@),
{
    let port = decimal_string(s.port as u64);
    let base = s.username.clone().concat("@").concat(s.host.as_str()).concat(":").concat(
        port.as_str(),
    );
    match &s.database {
        Some(d) => {
            let r = base.concat("/").concat(d.as_str());
            assert(r@ =~= conn_target(s@));
            r
        },
        None => {
            assert(base@ =~= conn_target(s@));
            base
        },
    }
}

fn push_setting_line(records: &mut Vec<LogRecord>, key: &str, value: u64)
    ensures
        records_view(final(records)@) == records_view(old(records)@).push(
            (LogLevel::Info, key@ + decimal(value as nat)),
        ),
{
    let v = decimal_string(value);
    let msg = String::from_str(key).concat(v.as_str());
    push_record(records, LogRecord::new(LogLevel::Info, msg));
}

/// The lines the MySQL adaptor logs about its configuration.
pub fn mysql_adaptor_report(opts: &Option<MySqlConnSummary>, conf_db: &Database) -> (r: Vec<
    LogRecord,
>)
    ensures
        records_view(r@) == mysql_config_report(opts_view(*opts), *conf_db),
{
    let mut records: Vec<LogRecord> = Vec::new();
    match opts {
        Some(s) => {
            let target = conn_target_string(s);
            let msg = String::from_str("xsqlx_conn_opt=").concat(target.as_str());
            push_record(&mut records, LogRecord::new(LogLevel::Info, msg));
        },
        None => {
            push_record(
                &mut records,
                LogRecord::new(
                    LogLevel::Warn,
                    String::from_str("database MySQL options were not set successfully"),
                ),
            );
        },
    }
    push_setting_line(&mut records, "xsqlx_conn_max_retries=", conf_db.conn_max_retries as u64);
    push_setting_line(
        &mut records,
        "xsqlx_conn_retry_init_delay_secs=",
        conf_db.conn_retry_init_delay_secs.get(),
    );
    push_setting_line(
        &mut records,
        "xsqlx_conn_acquire_timeout_secs=",
        conf_db.conn_acquire_timeout_secs as u64,
    );
    push_setting_line(
        &mut records,
        "xsqlx_conn_idle_timeout_secs=",
        conf_db.conn_idle_timeout_secs as u64,
    );
    push_setting_line(
        &mut records,
        "xsqlx_conn_max_lifetime_secs=",
        conf_db.conn_max_lifetime_secs as u64,
    );
    push_setting_line(&mut records, "xsqlx_min_connections=", conf_db.min_connections.get() as u64);
    push_setting_line(&mut records, "xsqlx_max_connections=", conf_db.max_connections as u64);
    assert(records_view(records@) =~= mysql_config_report(opts_view(*opts), *conf_db));
    records
}

/// The line logged when the pool cannot be made because the connection
/// string was never read.
pub fn missing_options_record() -> (r: LogRecord)
    ensures
        r@ == (
            LogLevel::Error,
            "database MySQL connection options were not initialized successfully"@,
        ),
{
    LogRecord::new(
        LogLevel::Error,
        String::from_str("database MySQL connection options were not initialized successfully"),
    )
}

/// The line logged when the adaptor closes its pool: a confirmation when
/// there was one, a warning when there was none.
pub fn close_pool_record(had_pool: bool) -> (r: LogRecord)
    ensures
        had_pool ==> r@ == (
            LogLevel::Info,
            "database connection pool to MySQL closed successfully"@,
        ),
        !had_pool ==> r@ == (
            LogLevel::Warn,
            "database connection pool to MySQL was not initialized"@,
        ),
{
    if had_pool {
        LogRecord::new(
            LogLevel::Info,
            String::from_str("database connection pool to MySQL closed successfully"),
        )
    } else {
        LogRecord::new(
            LogLevel::Warn,
            String::from_str("database connection pool to MySQL was not initialized"),
        )
    }
}

} // verus!
