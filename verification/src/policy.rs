//! Failure handling: each of the six operations is either fail-fast or
//! recoverable, and a fail-fast operation decides from the error's class
//! how to give up.

use crate::open_mode::OpenMode;
use vstd::prelude::*;

verus! {

/// How an operation treats a failed open.
#[derive(Clone, Copy, Debug, PartialEq, Eq, Structural)]
pub enum ErrorPolicy {
    /// Any failure ends the process.
    FailFast,
    /// Any failure is handed back to the caller as an error value.
    Recover,
}

/// The library's view of the platform's error classification: of all the
/// kinds the platform distinguishes, only "not found" ever matters here.
#[derive(Clone, Copy, Debug, PartialEq, Eq, Structural)]
pub enum ErrorClass {
    NotFound,
    Other,
}

/// What the shell that executes a request must do once the open call has
/// failed.  Every action but `ReturnError` ends the process.
#[derive(Clone, Copy, Debug, PartialEq, Eq, Structural)]
pub enum FailureAction {
    /// Hand the platform's error back to the caller untouched.
    ReturnError,
    /// Report the error together with the offending path, then abort.
    AbortWithDiagnostics,
    /// Abort carrying the error alone, with no further context.
    AbortPlain,
    /// The fail-fast read's non-"not found" branch: no policy is chosen
    /// for it, so it aborts with a marker of its own, distinct from the
    /// "not found" diagnostics.
    AbortUnhandledKind,
}

/// The failure table.  Recoverable operations always hand the error back;
/// a fail-fast truncating or appending open aborts on any failure (the
/// truncating one with diagnostics, the appending one plainly, as a bare
/// unwrap would); the fail-fast read aborts with diagnostics when the file
/// was absent and otherwise takes the deliberately unhandled branch.
pub open spec fn spec_failure_action(
    policy: ErrorPolicy,
    mode: OpenMode,
    class: ErrorClass,
) -> FailureAction {
    match policy {
        ErrorPolicy::Recover => FailureAction::ReturnError,
        ErrorPolicy::FailFast => match mode {
            OpenMode::Truncatable => FailureAction::AbortWithDiagnostics,
            OpenMode::Appendable => FailureAction::AbortPlain,
            OpenMode::Readable => match class {
                ErrorClass::NotFound => FailureAction::AbortWithDiagnostics,
                ErrorClass::Other => FailureAction::AbortUnhandledKind,
            },
        },
    }
}

/// Decide what a failed open leads to.
pub fn failure_action(policy: ErrorPolicy, mode: OpenMode, class: ErrorClass) -> (a: FailureAction)
    ensures
        a == spec_failure_action(policy, mode, class),
        policy == ErrorPolicy::Recover ==> a == FailureAction::ReturnError,
        policy == ErrorPolicy::FailFast ==> a != FailureAction::ReturnError,
{
    match policy {
        ErrorPolicy::Recover => FailureAction::ReturnError,
        ErrorPolicy::FailFast => match mode {
            OpenMode::Truncatable => FailureAction::AbortWithDiagnostics,
            OpenMode::Appendable => FailureAction::AbortPlain,
            OpenMode::Readable => match class {
                ErrorClass::NotFound => FailureAction::AbortWithDiagnostics,
                ErrorClass::Other => FailureAction::AbortUnhandledKind,
            },
        },
    }
}

/// A recoverable operation never ends the process: whatever the mode and
/// whatever the error, its failure action is to hand the error back.
pub proof fn lemma_recover_never_aborts(mode: OpenMode, class: ErrorClass)
    ensures
        spec_failure_action(ErrorPolicy::Recover, mode, class) == FailureAction::ReturnError,
{
}

/// A fail-fast operation never hands an error back: whatever the mode and
/// whatever the error, its failure action ends the process, so the caller
/// either holds a fully opened handle or is gone.
pub proof fn lemma_fail_fast_never_returns(mode: OpenMode, class: ErrorClass)
    ensures
        spec_failure_action(ErrorPolicy::FailFast, mode, class) != FailureAction::ReturnError,
{
}

} // verus!
