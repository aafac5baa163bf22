//! The validation-scope policy: what the host does with the driver's answer
//! when a validation-error capture scope is popped.

use vstd::prelude::*;

verus! {

/// What to do with a popped validation scope's result.
#[derive(Clone, Copy, PartialEq, Eq, Debug)]
pub enum ValidationDisposition {
    /// No error was captured: carry on.
    Proceed,
    /// Abort the process with the driver's message before the loop starts.
    AbortStartup,
    /// Print the driver's message to the error stream and keep looping.
    LogAndContinue,
}

/// The scope bracketing renderer construction: any captured error is fatal,
/// so the loop is never entered with a broken pipeline.
pub fn startup_validation_disposition(had_error: bool) -> (d: ValidationDisposition)
    ensures
        d == (if had_error {
            ValidationDisposition::AbortStartup
        } else {
            ValidationDisposition::Proceed
        }),
{
    if had_error {
        ValidationDisposition::AbortStartup
    } else {
        ValidationDisposition::Proceed
    }
}

/// The scope bracketing one frame: a captured error is logged and otherwise
/// ignored; the loop continues to the next event.
pub fn frame_validation_disposition(had_error: bool) -> (d: ValidationDisposition)
    ensures
        d == (if had_error {
            ValidationDisposition::LogAndContinue
        } else {
            ValidationDisposition::Proceed
        }),
{
    if had_error {
        ValidationDisposition::LogAndContinue
    } else {
        ValidationDisposition::Proceed
    }
}

} // verus!
