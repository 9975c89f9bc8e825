//! The severities of log lines.

use vstd::prelude::*;

verus! {

/// How grave a log line is.
pub enum Severity {
    /// Something failed.
    Error,
    /// Something may be wrong.
    Warn,
    /// Something worth knowing happened.
    Info,
    /// A detail for whoever looks for a fault.
    Debug,
    /// A detail of the finest grain.
    Trace,
}

impl Severity {
    /// The label that a log line of this severity carries.
    pub open spec fn label(&self) -> Seq<char> {
        match *self {
            Severity::Error => "ERROR"@,
            Severity::Warn => "WARN"@,
            Severity::Debug => "DEBUG"@,
            Severity::Info => "INFO"@,
            Severity::Trace => "TRACE"@,
        }
    }

    /// The label that a log line of this severity carries: the name of
    /// the severity in capitals.
    pub fn as_str(&self) -> (text: &'static str)
        ensures
            text@ == self.label(),
    {
        match *self {
            Severity::Error => "ERROR",
            Severity::Warn => "WARN",
            Severity::Debug => "DEBUG",
            Severity::Info => "INFO",
            Severity::Trace => "TRACE",
        }
    }
}

} // verus!
