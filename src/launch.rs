//! What the entry point concludes once the framework's run loop has returned.
//!
//! The run loop itself is driven outside this library. It hands back either
//! success or a textual rendering of the framework's error, and the functions
//! here decide what the process does next.
use vstd::prelude::*;

verus! {

/// The diagnostic that ends the process when the run loop could not start:
/// a fixed sentence, a colon and a space, then the framework's own account of
/// the failure.
pub open spec fn failure_message(detail: Seq<char>) -> Seq<char> {
    "error while running tauri application"@ + ": "@ + detail
}

/// Builds the diagnostic for a failed start from the framework's account of
/// the error.
pub fn launch_failure_message(detail: &str) -> (r: String)
    ensures
        r@ == failure_message(detail@),
{
    let head = String::from_str("error while running tauri application");
    let head = head.concat(": ");
    head.concat(detail)
}

/// Decides the outcome of a start: a run loop that returned normally lets the
/// process end normally; one that failed yields the diagnostic with which the
/// process must abort.
pub fn launch_verdict(started: Result<(), String>) -> (r: Result<(), String>)
    ensures
        started is Ok <==> r is Ok,
        started matches Err(detail) ==> r matches Err(m) && m@ == failure_message(detail@),
{
    match started {
        Ok(()) => Ok(()),
        Err(detail) => Err(launch_failure_message(detail.as_str())),
    }
}

} // verus!
