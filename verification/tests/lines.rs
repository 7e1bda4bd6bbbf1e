use sysly::Facility;
use sysly::Severity;
use sysly::Syslog;

const TS: &str = "2012-02-22T14:53:18Z";

#[test]
fn test_syslog_line_defaults() {
    assert_eq!(
        Syslog::line(Facility::LOCAL0, Severity::INFO, TS, None, None, None, None, "yo"),
        format!("<134>1 {} - - - - yo", TS)
    );
}

#[test]
fn test_syslog_line_host() {
    let host = "foo.local";
    assert_eq!(
        Syslog::line(Facility::LOCAL0, Severity::INFO, TS, Some(host), None, None, None, "yo"),
        format!("<134>1 {} {} - - - yo", TS, host)
    );
}

#[test]
fn test_syslog_line_app() {
    let app = "sysly";
    assert_eq!(
        Syslog::line(Facility::LOCAL0, Severity::INFO, TS, None, Some(app), None, None, "yo"),
        format!("<134>1 {} - {} - - yo", TS, app)
    );
}

#[test]
fn test_syslog_line_pid() {
    let pid = "16";
    assert_eq!(
        Syslog::line(Facility::LOCAL0, Severity::INFO, TS, None, None, Some(pid), None, "yo"),
        format!("<134>1 {} - - {} - yo", TS, pid)
    );
}

#[test]
fn test_syslog_line_msgid() {
    let msgid = "TCPIN";
    assert_eq!(
        Syslog::line(Facility::LOCAL0, Severity::INFO, TS, None, None, None, Some(msgid), "yo"),
        format!("<134>1 {} - - - {} yo", TS, msgid)
    );
}

#[test]
fn full_example_line() {
    assert_eq!(
        Syslog::line(Facility::LOCAL0, Severity::INFO, TS, None, Some("sysly"), None, None, "yo"),
        format!("<134>1 {} - sysly - - yo", TS)
    );
}

#[test]
fn formatting_is_deterministic() {
    let first = Syslog::line(
        Facility::AUTH,
        Severity::WARNING,
        TS,
        Some("foo.local"),
        Some("sysly"),
        Some("16"),
        Some("TCPIN"),
        "hello there",
    );
    let second = Syslog::line(
        Facility::AUTH,
        Severity::WARNING,
        TS,
        Some("foo.local"),
        Some("sysly"),
        Some("16"),
        Some("TCPIN"),
        "hello there",
    );
    assert_eq!(first, second);
}

#[test]
fn message_is_passed_through_unescaped() {
    assert_eq!(
        Syslog::line(Facility::USER, Severity::DEBUG, TS, None, None, None, None, "a b\nc"),
        format!("<15>1 {} - - - - a b\nc", TS)
    );
}
