//! Calls to the SBI firmware: the kernel's side of them.
use vstd::prelude::*;

verus! {

/// The reason given to the SBI `system_reset` call on shutdown.
#[derive(PartialEq, Eq, Structural, Clone, Copy, Debug)]
pub enum ResetReason {
    /// The kernel exits normally.
    NoReason,
    /// The kernel exits on a failure.
    SystemFailure,
}

/// The reason of a shutdown: a failure, or none.
pub fn shutdown_reason(failure: bool) -> (reason: ResetReason)
    ensures
        reason == if failure { ResetReason::SystemFailure } else { ResetReason::NoReason },
{
    if failure {
        ResetReason::SystemFailure
    } else {
        ResetReason::NoReason
    }
}

} // verus!
