//! The fixed numeric spaces of RFC 5424: facilities, severities, and the
//! priority value that combines them.

use vstd::prelude::*;

verus! {

/// A syslog facility: the coarse category of the message's origin subsystem.
///
/// Each facility carries a fixed code, a multiple of eight, already shifted
/// into the upper bits of the priority byte (see [`Facility::code`]).
#[allow(non_camel_case_types)]
#[derive(Copy, Clone, Debug, PartialEq, Eq, Structural)]
pub enum Facility {
    /// Kernel messages.
    KERN,
    /// User-level messages.
    USER,
    /// Mail system.
    MAIL,
    /// System daemons.
    DAEMON,
    /// Security / authorization messages.
    AUTH,
    /// Messages generated internally by syslogd.
    SYSLOG,
    /// Line printer subsystem.
    LINEPTR,
    /// Network news subsystem.
    NEWS,
    /// UUCP subsystem.
    UUCP,
    /// Clock daemon.
    CLOCK,
    /// Private security / authorization messages.
    AUTHPRIV,
    /// FTP daemon.
    FTP,
    /// Locally used facility 0.
    LOCAL0,
    /// Locally used facility 1.
    LOCAL1,
    /// Locally used facility 2.
    LOCAL2,
    /// Locally used facility 3.
    LOCAL3,
    /// Locally used facility 4.
    LOCAL4,
    /// Locally used facility 5.
    LOCAL5,
    /// Locally used facility 6.
    LOCAL6,
    /// Locally used facility 7.
    LOCAL7,
}

/// A syslog severity, from `EMERGENCY` (most severe, code 0) down to
/// `DEBUG` (least severe, code 7), in RFC 5424's defined order.
#[allow(non_camel_case_types)]
#[derive(Copy, Clone, Debug, PartialEq, Eq, Structural)]
pub enum Severity {
    /// System is unusable.
    EMERGENCY,
    /// Action must be taken immediately.
    ALERT,
    /// Critical conditions.
    CRITICAL,
    /// Error conditions.
    ERROR,
    /// Warning conditions.
    WARNING,
    /// Normal but significant condition.
    NOTICE,
    /// Informational messages.
    INFO,
    /// Debug-level messages.
    DEBUG,
}

impl Facility {
    /// The facility's numeric code: RFC 5424's facility number times eight,
    /// so that it occupies the upper bits of the priority byte.
    pub open spec fn code_spec(self) -> u8 {
        match self {
            Facility::KERN => 0,
            Facility::USER => 8,
            Facility::MAIL => 16,
            Facility::DAEMON => 24,
            Facility::AUTH => 32,
            Facility::SYSLOG => 40,
            Facility::LINEPTR => 48,
            Facility::NEWS => 56,
            Facility::UUCP => 64,
            Facility::CLOCK => 72,
            Facility::AUTHPRIV => 80,
            Facility::FTP => 88,
            Facility::LOCAL0 => 128,
            Facility::LOCAL1 => 136,
            Facility::LOCAL2 => 144,
            Facility::LOCAL3 => 152,
            Facility::LOCAL4 => 160,
            Facility::LOCAL5 => 168,
            Facility::LOCAL6 => 176,
            Facility::LOCAL7 => 184,
        }
    }

    /// Returns the facility's numeric code.
    pub fn code(self) -> (r: u8)
        ensures
            r == self.code_spec(),
    {
        match self {
            Facility::KERN => 0,
            Facility::USER => 8,
            Facility::MAIL => 16,
            Facility::DAEMON => 24,
            Facility::AUTH => 32,
            Facility::SYSLOG => 40,
            Facility::LINEPTR => 48,
            Facility::NEWS => 56,
            Facility::UUCP => 64,
            Facility::CLOCK => 72,
            Facility::AUTHPRIV => 80,
            Facility::FTP => 88,
            Facility::LOCAL0 => 128,
            Facility::LOCAL1 => 136,
            Facility::LOCAL2 => 144,
            Facility::LOCAL3 => 152,
            Facility::LOCAL4 => 160,
            Facility::LOCAL5 => 168,
            Facility::LOCAL6 => 176,
            Facility::LOCAL7 => 184,
        }
    }
}

impl Severity {
    /// The severity's numeric code, 0 through 7, 0 being the most severe.
    pub open spec fn code_spec(self) -> u8 {
        match self {
            Severity::EMERGENCY => 0,
            Severity::ALERT => 1,
            Severity::CRITICAL => 2,
            Severity::ERROR => 3,
            Severity::WARNING => 4,
            Severity::NOTICE => 5,
            Severity::INFO => 6,
            Severity::DEBUG => 7,
        }
    }

    /// Returns the severity's numeric code.
    pub fn code(self) -> (r: u8)
        ensures
            r == self.code_spec(),
    {
        match self {
            Severity::EMERGENCY => 0,
            Severity::ALERT => 1,
            Severity::CRITICAL => 2,
            Severity::ERROR => 3,
            Severity::WARNING => 4,
            Severity::NOTICE => 5,
            Severity::INFO => 6,
            Severity::DEBUG => 7,
        }
    }
}

/// The priority value of a message: the facility code bitwise-or the
/// severity code, as RFC 5424 lays the two out in one byte.
pub open spec fn priority_spec(facility: Facility, severity: Severity) -> u8 {
    facility.code_spec() | severity.code_spec()
}

/// The facility and severity codes never overlap in the priority byte, so
/// the bitwise-or is also their sum, and the whole value stays below 192.
pub proof fn lemma_priority_is_sum(facility: Facility, severity: Severity)
    ensures
        priority_spec(facility, severity) == facility.code_spec() + severity.code_spec(),
        priority_spec(facility, severity) < 192,
{
    let f = facility.code_spec();
    let s = severity.code_spec();
    assert(f % 8 == 0 && f <= 184);
    assert(s < 8);
    assert(f % 8 == 0 && f <= 184 && s < 8 ==> (f | s) == f + s && (f | s) < 192)
        by (bit_vector);
}

} // verus!
