use sysly::Facility;
use sysly::Syslog;

#[test]
fn new_defaults_to_user_and_nil_fields() {
    let syslog = Syslog::new();
    assert_eq!(syslog.facility, Facility::USER);
    assert_eq!(syslog.host, None);
    assert_eq!(syslog.app, None);
    assert_eq!(syslog.pid, None);
    assert_eq!(syslog.msgid, None);
}

#[test]
fn setters_change_one_field_and_keep_the_rest() {
    let syslog = Syslog::new()
        .facility(Facility::LOCAL0)
        .host("foo.local")
        .app("sysly")
        .pid("16")
        .msgid("TCPIN");
    assert_eq!(syslog.facility, Facility::LOCAL0);
    assert_eq!(syslog.host.as_deref(), Some("foo.local"));
    assert_eq!(syslog.app.as_deref(), Some("sysly"));
    assert_eq!(syslog.pid.as_deref(), Some("16"));
    assert_eq!(syslog.msgid.as_deref(), Some("TCPIN"));

    let refaced = Syslog::new().host("foo.local").facility(Facility::MAIL);
    assert_eq!(refaced.facility, Facility::MAIL);
    assert_eq!(refaced.host.as_deref(), Some("foo.local"));
    assert_eq!(refaced.app, None);
}

#[test]
fn emission_methods_use_the_severity_codes() {
    let syslog = Syslog::new();
    assert!(syslog.emergency("yo").starts_with("<8>1 "));
    assert!(syslog.alert("yo").starts_with("<9>1 "));
    assert!(syslog.critical("yo").starts_with("<10>1 "));
    assert!(syslog.err("yo").starts_with("<11>1 "));
    assert!(syslog.warn("yo").starts_with("<12>1 "));
    assert!(syslog.notice("yo").starts_with("<13>1 "));
    assert!(syslog.info("yo").starts_with("<14>1 "));
    assert!(syslog.debug("yo").starts_with("<15>1 "));
}

#[test]
fn emitted_line_has_the_header_field_count() {
    let line = Syslog::new().msgid("TCPIN").info("yo");
    // Six separators around a non-empty, space-free timestamp: the line
    // splits into exactly the seven RFC 5424 positions.
    let parts: Vec<&str> = line.split(' ').collect();
    assert_eq!(parts.len(), 7);
    assert!(parts[0].starts_with('<') && parts[0].ends_with(">1"));
    assert!(!parts[1].is_empty());
    assert_eq!(parts[2], "-");
    assert_eq!(parts[3], "-");
    assert_eq!(parts[4], "-");
    assert_eq!(parts[5], "TCPIN");
    assert_eq!(parts[6], "yo");
}

#[test]
fn emitted_line_carries_configured_fields() {
    let line = Syslog::new()
        .facility(Facility::LOCAL0)
        .app("sysly")
        .info("yo");
    assert!(line.starts_with("<134>1 "));
    assert!(line.ends_with(" - sysly - - yo"));
}
