use sysly::Facility;
use sysly::Severity;
use sysly::Syslog;

const FACILITIES: [(Facility, u8); 20] = [
    (Facility::KERN, 0),
    (Facility::USER, 8),
    (Facility::MAIL, 16),
    (Facility::DAEMON, 24),
    (Facility::AUTH, 32),
    (Facility::SYSLOG, 40),
    (Facility::LINEPTR, 48),
    (Facility::NEWS, 56),
    (Facility::UUCP, 64),
    (Facility::CLOCK, 72),
    (Facility::AUTHPRIV, 80),
    (Facility::FTP, 88),
    (Facility::LOCAL0, 128),
    (Facility::LOCAL1, 136),
    (Facility::LOCAL2, 144),
    (Facility::LOCAL3, 152),
    (Facility::LOCAL4, 160),
    (Facility::LOCAL5, 168),
    (Facility::LOCAL6, 176),
    (Facility::LOCAL7, 184),
];

const SEVERITIES: [(Severity, u8); 8] = [
    (Severity::EMERGENCY, 0),
    (Severity::ALERT, 1),
    (Severity::CRITICAL, 2),
    (Severity::ERROR, 3),
    (Severity::WARNING, 4),
    (Severity::NOTICE, 5),
    (Severity::INFO, 6),
    (Severity::DEBUG, 7),
];

#[test]
fn facility_codes() {
    for (facility, code) in FACILITIES {
        assert_eq!(facility.code(), code);
    }
}

#[test]
fn severity_codes() {
    for (severity, code) in SEVERITIES {
        assert_eq!(severity.code(), code);
    }
}

#[test]
fn priority_is_facility_or_severity() {
    for (facility, fcode) in FACILITIES {
        for (severity, scode) in SEVERITIES {
            assert_eq!(Syslog::priority(facility, severity), fcode | scode);
        }
    }
}

#[test]
fn priority_maximum_facility_value() {
    assert_eq!(Syslog::priority(Facility::LOCAL7, Severity::EMERGENCY), 184);
    assert_eq!(Syslog::priority(Facility::LOCAL0, Severity::INFO), 134);
    assert_eq!(Syslog::priority(Facility::KERN, Severity::EMERGENCY), 0);
    assert_eq!(Syslog::priority(Facility::LOCAL7, Severity::DEBUG), 191);
}
