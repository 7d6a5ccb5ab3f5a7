//! Execution domains exposed by the facade.
use vstd::prelude::*;

verus! {

/// Identifies one independently configurable execution domain.
#[derive(Debug, Clone, Copy, PartialEq, Eq, Structural)]
pub enum ExecutionDomain {
    /// Managed pool for synchronous tasks that may block OS threads.
    Blocking,
    /// Rayon pool for CPU-bound synchronous tasks.
    Cpu,
    /// Tokio `spawn_blocking` service.
    TokioBlocking,
    /// Tokio async task service.
    Io,
}

} // verus!
