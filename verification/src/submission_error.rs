//! Rejections returned when a submission cannot be accepted.
use std::sync::Arc;
use vstd::prelude::*;

use crate::execution_domain::ExecutionDomain;

verus! {

#[verifier::external_type_specification]
#[verifier::external_body]
pub struct ExIoError(std::io::Error);

/// Reason an executor service, or the facade itself, rejected a task.
///
/// The variants follow the executor services' own rejection reasons; values
/// returned by a domain are carried over one for one.
#[derive(Debug, Clone)]
pub enum SubmissionError {
    /// The service has been shut down and no longer accepts new tasks.
    Shutdown,
    /// The service is saturated and cannot accept more tasks.
    Saturated,
    /// The requested deadline cannot be represented by the platform clock.
    InvalidDeadline,
    /// The service could not create the worker thread needed for the task.
    WorkerSpawnFailed {
        /// I/O error reported while spawning the worker.
        source: Arc<std::io::Error>,
    },
}

impl SubmissionError {
    /// Whether two rejections belong to the same category; worker-spawn
    /// failures compare equal whatever their I/O error.
    pub open spec fn same_category(&self, other: &SubmissionError) -> bool {
        ||| (self is Shutdown && other is Shutdown)
        ||| (self is Saturated && other is Saturated)
        ||| (self is InvalidDeadline && other is InvalidDeadline)
        ||| (self is WorkerSpawnFailed && other is WorkerSpawnFailed)
    }
}

impl PartialEq for SubmissionError {
    fn eq(&self, other: &Self) -> (same: bool) {
        match (self, other) {
            (SubmissionError::Shutdown, SubmissionError::Shutdown) => true,
            (SubmissionError::Saturated, SubmissionError::Saturated) => true,
            (SubmissionError::InvalidDeadline, SubmissionError::InvalidDeadline) => true,
            (SubmissionError::WorkerSpawnFailed { .. }, SubmissionError::WorkerSpawnFailed { .. }) => true,
            _ => false,
        }
    }
}

impl Eq for SubmissionError {}

impl vstd::std_specs::cmp::PartialEqSpecImpl for SubmissionError {
    open spec fn obeys_eq_spec() -> bool {
        true
    }

    open spec fn eq_spec(&self, other: &SubmissionError) -> bool {
        self.same_category(other)
    }
}

/// Error returned when a facade submission cannot be accepted.
#[derive(Debug, Clone)]
pub enum ExecutionServicesSubmissionError {
    /// The requested execution domain was not enabled when the facade was
    /// built.
    DomainDisabled {
        /// Domain selected by the submission method.
        domain: ExecutionDomain,
    },
    /// An enabled domain rejected the task, or the facade has shut down.
    Rejected {
        /// Rejection returned by the facade itself or by the execution domain.
        source: SubmissionError,
    },
}

impl From<SubmissionError> for ExecutionServicesSubmissionError {
    fn from(source: SubmissionError) -> (wrapped: Self) {
        ExecutionServicesSubmissionError::Rejected { source }
    }
}

impl vstd::std_specs::convert::FromSpecImpl<SubmissionError> for ExecutionServicesSubmissionError {
    open spec fn obeys_from_spec() -> bool {
        true
    }

    open spec fn from_spec(source: SubmissionError) -> Self {
        ExecutionServicesSubmissionError::Rejected { source }
    }
}

} // verus!
