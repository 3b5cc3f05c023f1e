//! Error taxonomy: what aborts an operation and what is recovered locally.

use vstd::prelude::*;

verus! {

/// The errors the library can report.
///
/// `InvalidResult` aborts a result emission (the sink's wire format would be
/// broken); `JobNotFound` means the watchdog could not correlate any job to
/// the workload identifier; `TransportFailure` is a network, timeout, non-2xx
/// or malformed-body failure from one coordination server, recovered inside
/// the selector's loop; `CancellationFailure` means the cancel call itself
/// failed.
#[derive(Clone, Copy, Debug, PartialEq, Eq, Structural)]
pub enum CiError {
    InvalidResult,
    JobNotFound,
    TransportFailure,
    CancellationFailure,
}

impl CiError {
    /// A short description, for diagnostics outside the library.
    pub fn describe(&self) -> (r: &'static str)
        ensures
            r@ == self.spec_describe(),
    {
        match self {
            CiError::InvalidResult => "invalid result name or value",
            CiError::JobNotFound => "job not found",
            CiError::TransportFailure => "transport failure",
            CiError::CancellationFailure => "cancellation failure",
        }
    }

    pub open spec fn spec_describe(self) -> Seq<char> {
        match self {
            CiError::InvalidResult => "invalid result name or value"@,
            CiError::JobNotFound => "job not found"@,
            CiError::TransportFailure => "transport failure"@,
            CiError::CancellationFailure => "cancellation failure"@,
        }
    }
}

} // verus!
