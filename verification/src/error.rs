//! Where an error was raised.

use vstd::prelude::*;

verus! {

/// Detailed information about an error, for debugging and logging.
#[derive(Debug)]
pub struct ErrorInfo {
    /// File where the error occurred.
    pub file: &'static str,
    /// Line number where the error occurred.
    pub line: u32,
    /// Additional context about the error.
    pub context: Option<String>,
    /// Stack trace, if available.
    pub stack_trace: Option<String>,
}

} // verus!
