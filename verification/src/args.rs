//! The run-time flags the reconciliation core consumes. Parsing the
//! command line happens outside the library; the core only ever sees the
//! plain values collected here.

use vstd::prelude::*;

verus! {

/// Possible log levels.
#[derive(Debug, Clone, Copy, PartialEq, Eq, Structural)]
pub enum LogLevel {
    /// Everything, including per-request traces.
    Trace,
    /// Diagnostic detail.
    Debug,
    /// Normal progress reporting.
    Info,
    /// Only warnings and errors.
    Warning,
    /// Only errors.
    Error,
}

/// All run-time flags of the program.
#[derive(Debug, Clone, Copy, PartialEq, Eq, Structural)]
pub struct Args {
    /// When set, already present properties are overridden.
    pub override_properties: bool,
    /// When set, the operator is asked for an FDC ID when none was found.
    pub interactive: bool,
    /// The log level.
    pub log_level: LogLevel,
}

} // verus!
