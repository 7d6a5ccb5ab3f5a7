//! Stop report for the execution-services facade.
use qubit_executor::service::StopReport;
use vstd::prelude::*;

verus! {

/// Per-domain report returned by `ExecutionServices::stop`.
///
/// Each field is `Some` exactly for an enabled domain; there are no
/// cross-domain totals.
#[derive(Debug, Default, Clone, Copy, PartialEq, Eq)]
pub struct ExecutionServicesStopReport {
    /// Stop report for the blocking executor domain.
    /// `None` means the domain was not enabled.
    pub blocking: Option<StopReport>,
    /// Stop report for the CPU executor domain.
    /// `None` means the domain was not enabled.
    pub cpu: Option<StopReport>,
    /// Stop report for the Tokio blocking executor domain.
    /// `None` means the domain was not enabled.
    pub tokio_blocking: Option<StopReport>,
    /// Stop report for the Tokio async IO executor domain.
    ///
    /// `None` means this domain was not enabled. The `running` count covers
    /// accepted futures that had not completed when stop was requested.
    pub io: Option<StopReport>,
}

} // verus!
