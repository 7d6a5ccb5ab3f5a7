//! Lifecycle states of one execution domain and of the whole facade.
use vstd::prelude::*;

verus! {

/// Lifecycle state of an executor service, as reported by one execution
/// domain or aggregated over the facade.
#[derive(Debug, Clone, Copy, PartialEq, Eq, Structural)]
pub enum ServiceLifecycle {
    /// New tasks are accepted.
    Running,
    /// Graceful shutdown has started; accepted work may finish.
    ShuttingDown,
    /// Abrupt stop has started; accepted work is being cancelled.
    Stopping,
    /// No new tasks are accepted and no accepted work remains.
    Terminated,
}

} // verus!
