//! The caller-facing error type of the rendering core.

use vstd::prelude::*;

use crate::acquire::AcquireFailure;

verus! {

/// An error surfaced to the caller of the rendering core.
#[derive(PartialEq, Eq, Debug)]
pub enum AppError {
    /// The browser process, or a context on it, failed.
    BrowserError(String),
    /// Rendering or image processing failed.
    ProcessingError(String),
}

impl AppError {
    /// The message the error carries, whichever variant holds it.
    pub fn message(&self) -> (m: &String)
        ensures
            self matches AppError::BrowserError(s) ==> m@ == s@,
            self matches AppError::ProcessingError(s) ==> m@ == s@,
    {
        match self {
            AppError::BrowserError(m) => m,
            AppError::ProcessingError(m) => m,
        }
    }
}

/// The error an acquisition failure surfaces as: always a browser-side
/// error, with a message naming the exact failure.
pub fn acquire_failure_error(failure: AcquireFailure) -> (e: AppError)
    ensures
        failure is Recreation ==> (e matches AppError::BrowserError(m) && m@
            == "Tab recreation failed"@),
        failure is Underflow ==> (e matches AppError::BrowserError(m) && m@
            == "Tab pool underflow: no tab available despite permit"@),
        failure is Exhausted ==> (e matches AppError::BrowserError(m) && m@
            == "Failed to acquire tab after recreation"@),
{
    match failure {
        AcquireFailure::Recreation => AppError::BrowserError(
            String::from_str("Tab recreation failed"),
        ),
        AcquireFailure::Underflow => AppError::BrowserError(
            String::from_str("Tab pool underflow: no tab available despite permit"),
        ),
        AcquireFailure::Exhausted => AppError::BrowserError(
            String::from_str("Failed to acquire tab after recreation"),
        ),
    }
}

} // verus!
