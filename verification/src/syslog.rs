//! The `Syslog` configuration record: a facility, the optional header
//! tokens, and the severity-named emission methods that render a finished
//! RFC 5424 line for the current moment.
//!
//! Delivery is the caller's business: an emission method returns the
//! formatted line, and the surrounding program hands it to whatever
//! transport it owns.

use vstd::prelude::*;
use crate::codes::Facility;
use crate::codes::Severity;
use crate::codes::priority_spec;
use crate::encode::encode_line;
use crate::encode::line_spec;
use crate::encode::opt_text;
use crate::clock::rfc3339_string;
use crate::clock::timestamp_token;

verus! {

/// A syslog message builder: the facility to log under and the optional
/// host, app-name, process-id and message-id header tokens.
///
/// Configuration is functional-update style: each setter consumes the value
/// and returns a new one with a single field changed.
pub struct Syslog {
    /// The facility targeted when logging.
    pub facility: Facility,
    /// The HOSTNAME header field, or `None` to render the NIL token.
    pub host: Option<String>,
    /// The APP-NAME header field, or `None` to render the NIL token.
    pub app: Option<String>,
    /// The PROCID header field, or `None` to render the NIL token.
    pub pid: Option<String>,
    /// The MSGID header field, or `None` to render the NIL token.
    pub msgid: Option<String>,
}

/// An optional owned header token as text.
pub open spec fn meta_text(field: Option<String>) -> Option<Seq<char>> {
    match field {
        Option::Some(t) => Option::Some(t@),
        Option::None => Option::None,
    }
}

/// `r` is a wire line that `s` emits at severity `severity` for the message
/// `msg`: the exact RFC 5424 rendering of `s`'s configuration around some
/// well-formed timestamp, which the wall clock chose.
pub open spec fn is_line_for(s: Syslog, severity: Severity, msg: Seq<char>, r: Seq<char>) -> bool {
    exists|ts: Seq<char>|
        timestamp_token(ts) && r == #[trigger] line_spec(
            s.facility,
            severity,
            ts,
            meta_text(s.host),
            meta_text(s.app),
            meta_text(s.pid),
            meta_text(s.msgid),
            msg,
        )
}

/// Borrows an optional owned token as an optional string slice.
fn as_token<'a>(field: &'a Option<String>) -> (r: Option<&'a str>)
    ensures
        opt_text(r) == meta_text(*field),
{
    match field {
        Option::Some(t) => Option::Some(t.as_str()),
        Option::None => Option::None,
    }
}

impl Syslog {
    /// A builder with the default configuration: the `USER` facility and
    /// every optional header field absent.
    pub fn new() -> (r: Syslog)
        ensures
            r.facility == Facility::USER,
            r.host is None,
            r.app is None,
            r.pid is None,
            r.msgid is None,
    {
        Syslog { facility: Facility::USER, host: None, app: None, pid: None, msgid: None }
    }

    /// Returns a new builder configured to log under the given facility.
    pub fn facility(self, facility: Facility) -> (r: Syslog)
        ensures
            r.facility == facility,
            r.host == self.host,
            r.app == self.app,
            r.pid == self.pid,
            r.msgid == self.msgid,
    {
        Syslog {
            facility,
            host: self.host,
            app: self.app,
            pid: self.pid,
            msgid: self.msgid,
        }
    }

    /// Returns a new builder carrying the given HOSTNAME token.
    pub fn host(self, local: &str) -> (r: Syslog)
        ensures
            r.facility == self.facility,
            meta_text(r.host) == Option::Some(local@),
            r.app == self.app,
            r.pid == self.pid,
            r.msgid == self.msgid,
    {
        Syslog {
            facility: self.facility,
            host: Some(local.to_owned()),
            app: self.app,
            pid: self.pid,
            msgid: self.msgid,
        }
    }

    /// Returns a new builder carrying the given APP-NAME token.
    pub fn app(self, app: &str) -> (r: Syslog)
        ensures
            r.facility == self.facility,
            r.host == self.host,
            meta_text(r.app) == Option::Some(app@),
            r.pid == self.pid,
            r.msgid == self.msgid,
    {
        Syslog {
            facility: self.facility,
            host: self.host,
            app: Some(app.to_owned()),
            pid: self.pid,
            msgid: self.msgid,
        }
    }

    /// Returns a new builder carrying the given PROCID token.
    pub fn pid(self, pid: &str) -> (r: Syslog)
        ensures
            r.facility == self.facility,
            r.host == self.host,
            r.app == self.app,
            meta_text(r.pid) == Option::Some(pid@),
            r.msgid == self.msgid,
    {
        Syslog {
            facility: self.facility,
            host: self.host,
            app: self.app,
            pid: Some(pid.to_owned()),
            msgid: self.msgid,
        }
    }

    /// Returns a new builder carrying the given MSGID token.
    pub fn msgid(self, id: &str) -> (r: Syslog)
        ensures
            r.facility == self.facility,
            r.host == self.host,
            r.app == self.app,
            r.pid == self.pid,
            meta_text(r.msgid) == Option::Some(id@),
    {
        Syslog {
            facility: self.facility,
            host: self.host,
            app: self.app,
            pid: self.pid,
            msgid: Some(id.to_string()),
        }
    }

    /// Renders a debug-level line for the current moment.
    pub fn debug(&self, msg: &str) -> (r: String)
        ensures
            is_line_for(*self, Severity::DEBUG, msg@, r@),
    {
        self.log(Severity::DEBUG, msg)
    }

    /// Renders an info-level line for the current moment.
    pub fn info(&self, msg: &str) -> (r: String)
        ensures
            is_line_for(*self, Severity::INFO, msg@, r@),
    {
        self.log(Severity::INFO, msg)
    }

    /// Renders a notice-level line for the current moment.
    pub fn notice(&self, msg: &str) -> (r: String)
        ensures
            is_line_for(*self, Severity::NOTICE, msg@, r@),
    {
        self.log(Severity::NOTICE, msg)
    }

    /// Renders a warning-level line for the current moment.
    pub fn warn(&self, msg: &str) -> (r: String)
        ensures
            is_line_for(*self, Severity::WARNING, msg@, r@),
    {
        self.log(Severity::WARNING, msg)
    }

    /// Renders an error-level line for the current moment.
    pub fn err(&self, msg: &str) -> (r: String)
        ensures
            is_line_for(*self, Severity::ERROR, msg@, r@),
    {
        self.log(Severity::ERROR, msg)
    }

    /// Renders a critical-level line for the current moment.
    pub fn critical(&self, msg: &str) -> (r: String)
        ensures
            is_line_for(*self, Severity::CRITICAL, msg@, r@),
    {
        self.log(Severity::CRITICAL, msg)
    }

    /// Renders an alert-level line for the current moment.
    pub fn alert(&self, msg: &str) -> (r: String)
        ensures
            is_line_for(*self, Severity::ALERT, msg@, r@),
    {
        self.log(Severity::ALERT, msg)
    }

    /// Renders an emergency-level line for the current moment.
    pub fn emergency(&self, msg: &str) -> (r: String)
        ensures
            is_line_for(*self, Severity::EMERGENCY, msg@, r@),
    {
        self.log(Severity::EMERGENCY, msg)
    }

    /// Reads the wall clock and renders the full line at the given severity.
    fn log(&self, severity: Severity, msg: &str) -> (r: String)
        ensures
            is_line_for(*self, severity, msg@, r@),
    {
        let t = time::now();
        let ts = rfc3339_string(&t);
        let r = Syslog::line(
            self.facility,
            severity,
            ts.as_str(),
            as_token(&self.host),
            as_token(&self.app),
            as_token(&self.pid),
            as_token(&self.msgid),
            msg,
        );
        proof {
            assert(timestamp_token(ts@) && r@ == line_spec(
                self.facility,
                severity,
                ts@,
                meta_text(self.host),
                meta_text(self.app),
                meta_text(self.pid),
                meta_text(self.msgid),
                msg@,
            ));
        }
        r
    }

    /// Assembles the wire line for the given header values and message; the
    /// timestamp is taken as already-rendered text.
    pub fn line(
        facility: Facility,
        severity: Severity,
        timestamp: &str,
        host: Option<&str>,
        app: Option<&str>,
        pid: Option<&str>,
        msgid: Option<&str>,
        msg: &str,
    ) -> (r: String)
        ensures
            r@ == line_spec(
                facility,
                severity,
                timestamp@,
                opt_text(host),
                opt_text(app),
                opt_text(pid),
                opt_text(msgid),
                msg@,
            ),
    {
        encode_line(facility, severity, timestamp, host, app, pid, msgid, msg)
    }

    /// Computes the priority of a message from a facility and a severity.
    pub fn priority(facility: Facility, severity: Severity) -> (r: u8)
        ensures
            r == priority_spec(facility, severity),
    {
        facility.code() | severity.code()
    }
}

} // verus!
