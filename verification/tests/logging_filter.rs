use eas_weather_rs::logging_trace_level::LoggingTraceLevel;
use eas_weather_rs::text::{decimal_string, split_on_spaces, str_eq, strip_prefix, trim_str};
use eas_weather_rs::log_record::LogLevel;
use eas_weather_rs::logging::Logging;
use eas_weather_rs::raw_config::ConfigLogging;
use eas_weather_rs::tracing_filter::{conf_validation_report, filter_directives};
use tracing_subscriber::EnvFilter;

#[test]
fn build_filter_parses_for_every_level() {
    for raw in ["error", "warn", "info", "debug", "trace"] {
        let trace_level =
            LoggingTraceLevel::new(raw).unwrap_or_else(|_| panic!("valid level rejected: {raw}"));
        let directives = filter_directives(&trace_level);
        let filter = EnvFilter::builder().with_env_var("RUST_LOG").parse_lossy(&directives);
        let text = filter.to_string();
        assert!(!text.is_empty(), "filter should not be empty for level {raw}");
        assert!(
            text.contains(&format!("eas_weather_rs={raw}")),
            "filter for {raw} should match the lib/server crate, got: {text}"
        );
        assert!(
            text.contains(&format!("eas_migrate={raw}")),
            "filter for {raw} should match the migration crate, got: {text}"
        );
    }
}

#[test]
fn directives_pin_noisy_crates() {
    let level = LoggingTraceLevel::new("debug").unwrap();
    assert_eq!(
        filter_directives(&level),
        "eas_weather_rs=debug,eas_migrate=debug,sqlx=warn,hyper=warn,mio=warn,tokio=info,tower=info,tower_http=info,h2=warn,tonic=warn,rustls=warn,rustls_pki_types=warn,want=warn,reqwest=warn"
    );
}

#[test]
fn trim_matches_std() {
    for s in ["", "  ", " a ", "\u{a0}x\u{3000}", "\t\nab c\r\n", "abc", "\u{85}"] {
        assert_eq!(trim_str(s), s.trim());
    }
}

#[test]
fn strip_prefix_matches_std() {
    for (s, p) in [("Bearer x", "Bearer "), ("Bear", "Bearer "), ("", ""), ("abc", "abd"), ("é1", "é")] {
        assert_eq!(strip_prefix(s, p), s.strip_prefix(p));
    }
}

#[test]
fn decimal_matches_display() {
    for n in [0u64, 7, 10, 99, 100, 3306, 65535, u64::MAX] {
        assert_eq!(decimal_string(n), n.to_string());
    }
}

#[test]
fn split_matches_std() {
    for s in ["", " ", "a", "a b", " a  b ", "abc def ghi"] {
        let expected: Vec<String> = s.split(' ').map(|x| x.to_string()).collect();
        assert_eq!(split_on_spaces(s), expected);
    }
}

#[test]
fn string_equality() {
    assert!(str_eq("abc", "abc"));
    assert!(!str_eq("abc", "abd"));
    assert!(!str_eq("", " "));
}

#[test]
fn tracing_reports_its_configuration() {
    let conf = Logging::new(&ConfigLogging { format: Some("json".into()), trace_level: Some("warn".into()) });
    let lines: Vec<(LogLevel, String)> =
        conf_validation_report(&conf).into_iter().map(|r| (r.level, r.message)).collect();
    assert_eq!(
        lines,
        vec![
            (LogLevel::Info, "tracing: logging format set to `Json`".to_string()),
            (LogLevel::Info, "tracing: log trace level set to `Warn`".to_string()),
        ]
    );
}
