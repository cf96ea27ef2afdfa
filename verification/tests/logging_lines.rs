use user_service::logging::{
    log_credits, log_filter, abbreviate_module, module_abbreviable, EventRecord, LogLevel, PackageInfo, SpanText, TLog,
};
use user_service::utils::project_profile::Profile;

fn record() -> EventRecord {
    EventRecord {
        utc_micros: 1_704_164_645_678_999,
        level: LogLevel::Info,
        trace_id: "0af7651916cd43dd8448eb211c80319c".to_string(),
        span_id: "b7ad6b7169203331".to_string(),
        pid: 4242,
        thread_name: Some("main".to_string()),
        target: "user_service::services".to_string(),
        module: Some("user_service::services::web_service".to_string()),
        fields: "server started".to_string(),
        spans: None,
    }
}

#[test]
fn thread_names_are_quoted_and_escaped() {
    let mut r = record();
    r.thread_name = Some("a\"b".to_string());
    let line = TLog::new().format_event(&r);
    assert!(line.contains("[4242,\"a\\\"b\"]"));
}

#[test]
fn module_paths_are_abbreviated() {
    assert_eq!(abbreviate_module("user_service::services::web_service"), "u::s::web_service");
    assert_eq!(abbreviate_module("main"), "main");
    assert_eq!(abbreviate_module("a::b"), "a::b");
    assert_eq!(abbreviate_module("alpha:beta::gamma"), "a::gamma");
}

#[test]
fn event_line_without_spans() {
    let line = TLog::new().format_event(&record());
    assert_eq!(
        line,
        "2024-01-02 03:04:05.678 \x1b[1;32mINFO\x1b[0m [0af7651916cd43dd8448eb211c80319c,b7ad6b7169203331] \
[4242,\"main\"] [\x1b[1;34muser_service::services\x1b[0m] \x1b[1;33mu::s::web_service\x1b[0m: server started\n"
    );
}

#[test]
fn event_line_with_spans_and_no_thread_name() {
    let mut r = record();
    r.level = LogLevel::Error;
    r.thread_name = None;
    r.module = None;
    r.spans = Some(vec![
        SpanText { name: "request".to_string(), fields: "id=1".to_string() },
        SpanText { name: "query".to_string(), fields: String::new() },
    ]);
    let line = TLog::new().format_event(&r);
    assert_eq!(
        line,
        "2024-01-02 03:04:05.678 \x1b[1;31mERROR\x1b[0m [0af7651916cd43dd8448eb211c80319c,b7ad6b7169203331] \
[4242, ] [\x1b[1;34muser_service::services\x1b[0m] []: server started\
[ \x1b[1mrequest\x1b[0m  {\x1b[3mid=1\x1b[0m} ,  \x1b[1mquery\x1b[0m ] \n"
    );
}

#[test]
fn level_colours() {
    let mut r = record();
    r.module = None;
    r.thread_name = None;
    for (l, code, name) in [
        (LogLevel::Trace, "35", "TRACE"),
        (LogLevel::Debug, "34", "DEBUG"),
        (LogLevel::Warn, "33", "WARN"),
    ] {
        r.level = l;
        let line = TLog::new().format_event(&r);
        assert!(line.contains(&format!(" \x1b[1;{}m{}\x1b[0m [", code, name)));
    }
}

#[test]
fn credits_banner() {
    let p = PackageInfo {
        authors: "A. Author".to_string(),
        name: "user_service".to_string(),
        homepage: "https://example.org".to_string(),
        description: "Users".to_string(),
        repository: "https://example.org/repo".to_string(),
        version: "0.1.0".to_string(),
    };
    let lines = log_credits(&p, Profile::STAGING);
    assert_eq!(
        lines,
        vec![
            "-------- START CREDITS ------------",
            "Author: A. Author",
            "App Name: user_service",
            "Home Page: https://example.org",
            "Description: Users",
            "Repository: https://example.org/repo",
            "App Version: 0.1.0",
            "Environment Profile: STAGING",
            "-------- END CREDITS --------------",
        ]
    );
}

#[test]
fn filter_defaults_when_unset() {
    assert_eq!(log_filter(None), "info, actix_web=info,actix_server=info,actix_http=info");
    assert_eq!(log_filter(Some("debug".to_string())), "debug");
}

#[test]
fn module_paths_that_can_be_abbreviated() {
    assert!(module_abbreviable("user_service::services::web_service"));
    assert!(module_abbreviable("main"));
    assert!(!module_abbreviable("a::::b"));
    assert!(!module_abbreviable("::b"));
}

#[test]
fn event_timestamps_are_utc_with_milliseconds() {
    let mut r = record();
    r.utc_micros = 0;
    assert!(TLog::new().format_event(&r).starts_with("1970-01-01 00:00:00.000 "));
    r.utc_micros = -1;
    assert!(TLog::new().format_event(&r).starts_with("1969-12-31 23:59:59.999 "));
}
