//! A client-side encoder for the syslog wire format of RFC 5424.
//!
//! The crate builds structured log lines — priority, version, timestamp and
//! the optional host / app-name / process-id / message-id header fields —
//! and hands the finished text to the caller for delivery. Every formatting
//! function carries a contract that pins the produced line down exactly.

pub mod clock;
pub mod codes;
pub mod encode;
pub mod syslog;

pub use codes::Facility;
pub use codes::Severity;
pub use syslog::Syslog;
