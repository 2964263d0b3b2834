//! Log records that the library hands to whatever sink the process has set up.

use vstd::prelude::*;

verus! {

/// How much a record matters.
#[derive(Clone, Copy, Debug, PartialEq, Eq, Structural)]
pub enum Severity {
    Info,
    Warn,
    Debug,
}

/// One line for the log: its severity and its message.
#[derive(Clone, Debug, PartialEq, Eq)]
pub struct LogRecord {
    pub severity: Severity,
    pub message: String,
}

} // verus!
