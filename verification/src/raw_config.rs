//! The raw configuration as gathered from the command line, the environment
//! and the configuration files, before any validation.

use vstd::prelude::*;

verus! {

/// Raw logging settings.
#[derive(Clone, Debug)]
pub struct ConfigLogging {
    pub format: Option<String>,
    pub trace_level: Option<String>,
}

/// Raw webserver settings.
#[derive(Clone, Debug)]
pub struct ConfigWebserver {
    pub hostname: Option<String>,
    pub port: Option<u16>,
    pub base_path: Option<String>,
    pub shutdown_timeout_secs: Option<u64>,
    pub api_key_file: Option<String>,
    pub jwt_key_file: Option<String>,
    pub jwt_access_token_expiry_secs: Option<u64>,
    pub default_page_limit: Option<u64>,
    pub page_limit_max: Option<u64>,
}

/// Raw database settings.
#[derive(Clone, Debug)]
pub struct ConfigDatabase {
    pub conn_url_file: Option<String>,
    pub conn_max_retries: Option<u8>,
    pub conn_retry_init_delay_secs: Option<u64>,
    pub conn_acquire_timeout_secs: Option<u16>,
    pub conn_idle_timeout_secs: Option<u32>,
    pub conn_max_lifetime_secs: Option<u32>,
    pub max_connections: Option<u32>,
    pub min_connections: Option<u32>,
}

/// The whole raw configuration.
#[derive(Clone, Debug)]
pub struct Config {
    pub logging: ConfigLogging,
    pub webserver: ConfigWebserver,
    pub database: ConfigDatabase,
    pub config_file: Option<String>,
}

/// The value of a setting given by two layers: the higher layer's when it
/// has one, the lower layer's otherwise.
pub open spec fn first_some<T>(high: Option<T>, low: Option<T>) -> Option<T> {
    match high {
        Some(v) => Some(v),
        None => low,
    }
}

/// The raw configuration from a higher-priority layer laid over a lower
/// one: each setting comes from the higher layer when it gives one, and
/// from the lower layer otherwise.
pub open spec fn merged(high: Config, low: Config) -> Config {
    Config {
        logging: ConfigLogging {
            format: first_some(high.logging.format, low.logging.format),
            trace_level: first_some(high.logging.trace_level, low.logging.trace_level),
        },
        webserver: ConfigWebserver {
            hostname: first_some(high.webserver.hostname, low.webserver.hostname),
            port: first_some(high.webserver.port, low.webserver.port),
            base_path: first_some(high.webserver.base_path, low.webserver.base_path),
            shutdown_timeout_secs: first_some(
                high.webserver.shutdown_timeout_secs,
                low.webserver.shutdown_timeout_secs,
            ),
            api_key_file: first_some(high.webserver.api_key_file, low.webserver.api_key_file),
            jwt_key_file: first_some(high.webserver.jwt_key_file, low.webserver.jwt_key_file),
            jwt_access_token_expiry_secs: first_some(
                high.webserver.jwt_access_token_expiry_secs,
                low.webserver.jwt_access_token_expiry_secs,
            ),
            default_page_limit: first_some(
                high.webserver.default_page_limit,
                low.webserver.default_page_limit,
            ),
            page_limit_max: first_some(high.webserver.page_limit_max, low.webserver.page_limit_max),
        },
        database: ConfigDatabase {
            conn_url_file: first_some(high.database.conn_url_file, low.database.conn_url_file),
            conn_max_retries: first_some(
                high.database.conn_max_retries,
                low.database.conn_max_retries,
            ),
            conn_retry_init_delay_secs: first_some(
                high.database.conn_retry_init_delay_secs,
                low.database.conn_retry_init_delay_secs,
            ),
            conn_acquire_timeout_secs: first_some(
                high.database.conn_acquire_timeout_secs,
                low.database.conn_acquire_timeout_secs,
            ),
            conn_idle_timeout_secs: first_some(
                high.database.conn_idle_timeout_secs,
                low.database.conn_idle_timeout_secs,
            ),
            conn_max_lifetime_secs: first_some(
                high.database.conn_max_lifetime_secs,
                low.database.conn_max_lifetime_secs,
            ),
            max_connections: first_some(high.database.max_connections, low.database.max_connections),
            min_connections: first_some(high.database.min_connections, low.database.min_connections),
        },
        config_file: first_some(high.config_file, low.config_file),
    }
}

/// The configuration from its sources in priority order: command-line
/// arguments over environment variables (those set by the `.env` file
/// included) over the configuration file over the default configuration
/// file. Settings given by none of them stay absent and take their
/// defaults at validation.
pub open spec fn layered(cli: Config, env: Config, file: Config, default_file: Config) -> Config {
    merged(cli, merged(env, merged(file, default_file)))
}

fn or_string(high: &Option<String>, low: &Option<String>) -> (r: Option<String>)
    ensures
        r == first_some(*high, *low),
{
    match high {
        Some(v) => Some(v.clone()),
        None => match low {
            Some(v) => Some(v.clone()),
            None => None,
        },
    }
}

fn or_value<T: Copy>(high: Option<T>, low: Option<T>) -> (r: Option<T>)
    ensures
        r == first_some(high, low),
{
    match high {
        Some(v) => Some(v),
        None => low,
    }
}

/// Lays the raw configuration `high` over `low`, setting by setting.
pub fn merge_config(high: &Config, low: &Config) -> (r: Config)
    ensures
        r == merged(*high, *low),
{
    Config {
        logging: ConfigLogging {
            format: or_string(&high.logging.format, &low.logging.format),
            trace_level: or_string(&high.logging.trace_level, &low.logging.trace_level),
        },
        webserver: ConfigWebserver {
            hostname: or_string(&high.webserver.hostname, &low.webserver.hostname),
            port: or_value(high.webserver.port, low.webserver.port),
            base_path: or_string(&high.webserver.base_path, &low.webserver.base_path),
            shutdown_timeout_secs: or_value(
                high.webserver.shutdown_timeout_secs,
                low.webserver.shutdown_timeout_secs,
            ),
            api_key_file: or_string(&high.webserver.api_key_file, &low.webserver.api_key_file),
            jwt_key_file: or_string(&high.webserver.jwt_key_file, &low.webserver.jwt_key_file),
            jwt_access_token_expiry_secs: or_value(
                high.webserver.jwt_access_token_expiry_secs,
                low.webserver.jwt_access_token_expiry_secs,
            ),
            default_page_limit: or_value(
                high.webserver.default_page_limit,
                low.webserver.default_page_limit,
            ),
            page_limit_max: or_value(high.webserver.page_limit_max, low.webserver.page_limit_max),
        },
        database: ConfigDatabase {
            conn_url_file: or_string(&high.database.conn_url_file, &low.database.conn_url_file),
            conn_max_retries: or_value(high.database.conn_max_retries, low.database.conn_max_retries),
            conn_retry_init_delay_secs: or_value(
                high.database.conn_retry_init_delay_secs,
                low.database.conn_retry_init_delay_secs,
            ),
            conn_acquire_timeout_secs: or_value(
                high.database.conn_acquire_timeout_secs,
                low.database.conn_acquire_timeout_secs,
            ),
            conn_idle_timeout_secs: or_value(
                high.database.conn_idle_timeout_secs,
                low.database.conn_idle_timeout_secs,
            ),
            conn_max_lifetime_secs: or_value(
                high.database.conn_max_lifetime_secs,
                low.database.conn_max_lifetime_secs,
            ),
            max_connections: or_value(high.database.max_connections, low.database.max_connections),
            min_connections: or_value(high.database.min_connections, low.database.min_connections),
        },
        config_file: or_string(&high.config_file, &low.config_file),
    }
}

/// Gathers the raw configuration from its four sources, in priority order:
/// command line, environment, configuration file, default configuration
/// file.
pub fn layer_config(cli: &Config, env: &Config, file: &Config, default_file: &Config) -> (r:
    Config)
    ensures
        r == layered(*cli, *env, *file, *default_file),
{
    let lower = merge_config(file, default_file);
    let lower = merge_config(env, &lower);
    merge_config(cli, &lower)
}

/// A layer that gives no setting.
pub open spec fn empty_config() -> Config {
    Config {
        logging: ConfigLogging { format: None, trace_level: None },
        webserver: ConfigWebserver {
            hostname: None,
            port: None,
            base_path: None,
            shutdown_timeout_secs: None,
            api_key_file: None,
            jwt_key_file: None,
            jwt_access_token_expiry_secs: None,
            default_page_limit: None,
            page_limit_max: None,
        },
        database: ConfigDatabase {
            conn_url_file: None,
            conn_max_retries: None,
            conn_retry_init_delay_secs: None,
            conn_acquire_timeout_secs: None,
            conn_idle_timeout_secs: None,
            conn_max_lifetime_secs: None,
            max_connections: None,
            min_connections: None,
        },
        config_file: None,
    }
}

/// Laying layers over each other does not depend on how they are grouped,
/// so the priority order alone decides which source a setting comes from;
/// a layer laid over itself is unchanged, and a layer that gives no setting
/// changes nothing, above or below.
#[verifier::spinoff_prover]
#[verifier::rlimit(40)]
pub proof fn lemma_layering(a: Config, b: Config, c: Config)
    ensures
        merged(a, merged(b, c)) == merged(merged(a, b), c),
        merged(a, a) == a,
        merged(a, empty_config()) == a,
        merged(empty_config(), a) == a,
{
}

/// Whether `r` is the setting of a higher layer `high` laid over a lower
/// layer `low`: the higher layer's value whenever it gives one, the lower
/// layer's otherwise.
pub open spec fn keeps_higher<T>(r: Option<T>, high: Option<T>, low: Option<T>) -> bool {
    &&& high matches Some(v) ==> r == Some(v)
    &&& high is None ==> r == low
}

/// Whether `r` is the value of the first of four sources, in priority
/// order, that gives one; absent when none does.
pub open spec fn from_first_given<T>(
    r: Option<T>,
    a: Option<T>,
    b: Option<T>,
    c: Option<T>,
    d: Option<T>,
) -> bool {
    &&& a matches Some(v) ==> r == Some(v)
    &&& a is None ==> (b matches Some(v) ==> r == Some(v))
    &&& a is None && b is None ==> (c matches Some(v) ==> r == Some(v))
    &&& a is None && b is None && c is None ==> r == d
}

/// A setting given by the higher layer is kept when it is laid over a lower
/// one, and the lower layer's value is used only where the higher layer
/// gives none; this holds of every setting.
pub proof fn lemma_higher_layer_wins(high: Config, low: Config)
    ensures
        keeps_higher(merged(high, low).logging.format, high.logging.format, low.logging.format),
        keeps_higher(merged(high, low).logging.trace_level, high.logging.trace_level, low.logging.trace_level),
        keeps_higher(merged(high, low).webserver.hostname, high.webserver.hostname, low.webserver.hostname),
        keeps_higher(merged(high, low).webserver.port, high.webserver.port, low.webserver.port),
        keeps_higher(merged(high, low).webserver.base_path, high.webserver.base_path, low.webserver.base_path),
        keeps_higher(merged(high, low).webserver.shutdown_timeout_secs, high.webserver.shutdown_timeout_secs, low.webserver.shutdown_timeout_secs),
        keeps_higher(merged(high, low).webserver.api_key_file, high.webserver.api_key_file, low.webserver.api_key_file),
        keeps_higher(merged(high, low).webserver.jwt_key_file, high.webserver.jwt_key_file, low.webserver.jwt_key_file),
        keeps_higher(merged(high, low).webserver.jwt_access_token_expiry_secs, high.webserver.jwt_access_token_expiry_secs, low.webserver.jwt_access_token_expiry_secs),
        keeps_higher(merged(high, low).webserver.default_page_limit, high.webserver.default_page_limit, low.webserver.default_page_limit),
        keeps_higher(merged(high, low).webserver.page_limit_max, high.webserver.page_limit_max, low.webserver.page_limit_max),
        keeps_higher(merged(high, low).database.conn_url_file, high.database.conn_url_file, low.database.conn_url_file),
        keeps_higher(merged(high, low).database.conn_max_retries, high.database.conn_max_retries, low.database.conn_max_retries),
        keeps_higher(merged(high, low).database.conn_retry_init_delay_secs, high.database.conn_retry_init_delay_secs, low.database.conn_retry_init_delay_secs),
        keeps_higher(merged(high, low).database.conn_acquire_timeout_secs, high.database.conn_acquire_timeout_secs, low.database.conn_acquire_timeout_secs),
        keeps_higher(merged(high, low).database.conn_idle_timeout_secs, high.database.conn_idle_timeout_secs, low.database.conn_idle_timeout_secs),
        keeps_higher(merged(high, low).database.conn_max_lifetime_secs, high.database.conn_max_lifetime_secs, low.database.conn_max_lifetime_secs),
        keeps_higher(merged(high, low).database.max_connections, high.database.max_connections, low.database.max_connections),
        keeps_higher(merged(high, low).database.min_connections, high.database.min_connections, low.database.min_connections),
        keeps_higher(merged(high, low).config_file, high.config_file, low.config_file),
{
}

proof fn lemma_first_given<T>(a: Option<T>, b: Option<T>, c: Option<T>, d: Option<T>)
    ensures
        from_first_given(first_some(a, first_some(b, first_some(c, d))), a, b, c, d),
{
}

/// Every setting of the gathered configuration comes from the first source
/// that gives it, in the order command line, environment, configuration
/// file, default configuration file: a command-line value always wins, and
/// the default file is used only where no other source gives the setting.
pub proof fn lemma_priority_order(cli: Config, env: Config, file: Config, default_file: Config)
    ensures
        from_first_given(layered(cli, env, file, default_file).logging.format, cli.logging.format, env.logging.format, file.logging.format, default_file.logging.format),
        from_first_given(layered(cli, env, file, default_file).logging.trace_level, cli.logging.trace_level, env.logging.trace_level, file.logging.trace_level, default_file.logging.trace_level),
        from_first_given(layered(cli, env, file, default_file).webserver.hostname, cli.webserver.hostname, env.webserver.hostname, file.webserver.hostname, default_file.webserver.hostname),
        from_first_given(layered(cli, env, file, default_file).webserver.port, cli.webserver.port, env.webserver.port, file.webserver.port, default_file.webserver.port),
        from_first_given(layered(cli, env, file, default_file).webserver.base_path, cli.webserver.base_path, env.webserver.base_path, file.webserver.base_path, default_file.webserver.base_path),
        from_first_given(layered(cli, env, file, default_file).webserver.shutdown_timeout_secs, cli.webserver.shutdown_timeout_secs, env.webserver.shutdown_timeout_secs, file.webserver.shutdown_timeout_secs, default_file.webserver.shutdown_timeout_secs),
        from_first_given(layered(cli, env, file, default_file).webserver.api_key_file, cli.webserver.api_key_file, env.webserver.api_key_file, file.webserver.api_key_file, default_file.webserver.api_key_file),
        from_first_given(layered(cli, env, file, default_file).webserver.jwt_key_file, cli.webserver.jwt_key_file, env.webserver.jwt_key_file, file.webserver.jwt_key_file, default_file.webserver.jwt_key_file),
        from_first_given(layered(cli, env, file, default_file).webserver.jwt_access_token_expiry_secs, cli.webserver.jwt_access_token_expiry_secs, env.webserver.jwt_access_token_expiry_secs, file.webserver.jwt_access_token_expiry_secs, default_file.webserver.jwt_access_token_expiry_secs),
        from_first_given(layered(cli, env, file, default_file).webserver.default_page_limit, cli.webserver.default_page_limit, env.webserver.default_page_limit, file.webserver.default_page_limit, default_file.webserver.default_page_limit),
        from_first_given(layered(cli, env, file, default_file).webserver.page_limit_max, cli.webserver.page_limit_max, env.webserver.page_limit_max, file.webserver.page_limit_max, default_file.webserver.page_limit_max),
        from_first_given(layered(cli, env, file, default_file).database.conn_url_file, cli.database.conn_url_file, env.database.conn_url_file, file.database.conn_url_file, default_file.database.conn_url_file),
        from_first_given(layered(cli, env, file, default_file).database.conn_max_retries, cli.database.conn_max_retries, env.database.conn_max_retries, file.database.conn_max_retries, default_file.database.conn_max_retries),
        from_first_given(layered(cli, env, file, default_file).database.conn_retry_init_delay_secs, cli.database.conn_retry_init_delay_secs, env.database.conn_retry_init_delay_secs, file.database.conn_retry_init_delay_secs, default_file.database.conn_retry_init_delay_secs),
        from_first_given(layered(cli, env, file, default_file).database.conn_acquire_timeout_secs, cli.database.conn_acquire_timeout_secs, env.database.conn_acquire_timeout_secs, file.database.conn_acquire_timeout_secs, default_file.database.conn_acquire_timeout_secs),
        from_first_given(layered(cli, env, file, default_file).database.conn_idle_timeout_secs, cli.database.conn_idle_timeout_secs, env.database.conn_idle_timeout_secs, file.database.conn_idle_timeout_secs, default_file.database.conn_idle_timeout_secs),
        from_first_given(layered(cli, env, file, default_file).database.conn_max_lifetime_secs, cli.database.conn_max_lifetime_secs, env.database.conn_max_lifetime_secs, file.database.conn_max_lifetime_secs, default_file.database.conn_max_lifetime_secs),
        from_first_given(layered(cli, env, file, default_file).database.max_connections, cli.database.max_connections, env.database.max_connections, file.database.max_connections, default_file.database.max_connections),
        from_first_given(layered(cli, env, file, default_file).database.min_connections, cli.database.min_connections, env.database.min_connections, file.database.min_connections, default_file.database.min_connections),
        from_first_given(layered(cli, env, file, default_file).config_file, cli.config_file, env.config_file, file.config_file, default_file.config_file),
{
    lemma_first_given(cli.logging.format, env.logging.format, file.logging.format, default_file.logging.format);
    lemma_first_given(cli.logging.trace_level, env.logging.trace_level, file.logging.trace_level, default_file.logging.trace_level);
    lemma_first_given(cli.webserver.hostname, env.webserver.hostname, file.webserver.hostname, default_file.webserver.hostname);
    lemma_first_given(cli.webserver.port, env.webserver.port, file.webserver.port, default_file.webserver.port);
    lemma_first_given(cli.webserver.base_path, env.webserver.base_path, file.webserver.base_path, default_file.webserver.base_path);
    lemma_first_given(cli.webserver.shutdown_timeout_secs, env.webserver.shutdown_timeout_secs, file.webserver.shutdown_timeout_secs, default_file.webserver.shutdown_timeout_secs);
    lemma_first_given(cli.webserver.api_key_file, env.webserver.api_key_file, file.webserver.api_key_file, default_file.webserver.api_key_file);
    lemma_first_given(cli.webserver.jwt_key_file, env.webserver.jwt_key_file, file.webserver.jwt_key_file, default_file.webserver.jwt_key_file);
    lemma_first_given(cli.webserver.jwt_access_token_expiry_secs, env.webserver.jwt_access_token_expiry_secs, file.webserver.jwt_access_token_expiry_secs, default_file.webserver.jwt_access_token_expiry_secs);
    lemma_first_given(cli.webserver.default_page_limit, env.webserver.default_page_limit, file.webserver.default_page_limit, default_file.webserver.default_page_limit);
    lemma_first_given(cli.webserver.page_limit_max, env.webserver.page_limit_max, file.webserver.page_limit_max, default_file.webserver.page_limit_max);
    lemma_first_given(cli.database.conn_url_file, env.database.conn_url_file, file.database.conn_url_file, default_file.database.conn_url_file);
    lemma_first_given(cli.database.conn_max_retries, env.database.conn_max_retries, file.database.conn_max_retries, default_file.database.conn_max_retries);
    lemma_first_given(cli.database.conn_retry_init_delay_secs, env.database.conn_retry_init_delay_secs, file.database.conn_retry_init_delay_secs, default_file.database.conn_retry_init_delay_secs);
    lemma_first_given(cli.database.conn_acquire_timeout_secs, env.database.conn_acquire_timeout_secs, file.database.conn_acquire_timeout_secs, default_file.database.conn_acquire_timeout_secs);
    lemma_first_given(cli.database.conn_idle_timeout_secs, env.database.conn_idle_timeout_secs, file.database.conn_idle_timeout_secs, default_file.database.conn_idle_timeout_secs);
    lemma_first_given(cli.database.conn_max_lifetime_secs, env.database.conn_max_lifetime_secs, file.database.conn_max_lifetime_secs, default_file.database.conn_max_lifetime_secs);
    lemma_first_given(cli.database.max_connections, env.database.max_connections, file.database.max_connections, default_file.database.max_connections);
    lemma_first_given(cli.database.min_connections, env.database.min_connections, file.database.min_connections, default_file.database.min_connections);
    lemma_first_given(cli.config_file, env.config_file, file.config_file, default_file.config_file);
}

} // verus!
