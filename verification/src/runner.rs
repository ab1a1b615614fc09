//! The process runner's result handling: a finished process's exit flag
//! and captured streams are collapsed into either its standard output or
//! the most informative error text. Spawning itself is left to the caller,
//! which owns the process boundary.

use vstd::prelude::*;

verus! {

/// Collapses a finished process's result. Success is decided solely by the
/// exit flag; on failure the error text is standard error, or standard
/// output when standard error is empty, since some tools report errors on
/// standard output.
pub fn collapse_output(success: bool, stdout: String, stderr: String) -> (r: Result<String, String>)
    ensures
        success ==> (r matches Ok(s) && s@ == stdout@),
        !success && stderr@.len() > 0 ==> (r matches Err(e) && e@ == stderr@),
        !success && stderr@.len() == 0 ==> (r matches Err(e) && e@ == stdout@),
{
    if success {
        Ok(stdout)
    } else if stderr.as_str().is_empty() {
        Err(stdout)
    } else {
        Err(stderr)
    }
}

/// The error text for a process that could not be started at all: it names
/// the attempted path and the underlying report.
pub fn spawn_failure_message(tool_path: &str, os_error: &str) -> (r: String)
    ensures
        r@ == "failed to run "@ + tool_path@ + ": "@ + os_error@,
{
    String::from_str("failed to run ").concat(tool_path).concat(": ").concat(os_error)
}

} // verus!
