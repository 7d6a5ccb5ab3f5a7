//! Build error for the execution-services facade.
use qubit_executor::service::ExecutorServiceBuilderError;
use qubit_rayon_executor::RayonExecutorServiceBuildError;
use vstd::prelude::*;

verus! {

#[verifier::external_type_specification]
#[verifier::external_body]
pub struct ExExecutorServiceBuilderError(ExecutorServiceBuilderError);

#[verifier::external_type_specification]
#[verifier::external_body]
pub struct ExRayonExecutorServiceBuildError(RayonExecutorServiceBuildError);

/// Error returned when `ExecutionServicesBuilder::build` cannot build the
/// facade.
#[derive(Debug)]
pub enum ExecutionServicesBuildError {
    /// No execution domain was enabled.
    NoDomains,
    /// A Tokio-backed domain was enabled without a Tokio runtime.
    MissingTokioRuntime,
    /// The blocking executor-service configuration is invalid.
    Blocking {
        /// Error returned by the underlying blocking executor builder.
        source: ExecutorServiceBuilderError,
    },
    /// The CPU executor-service configuration is invalid.
    Cpu {
        /// Error returned by the underlying Rayon executor builder.
        source: RayonExecutorServiceBuildError,
    },
}

/// The text that a blocking-domain build failure's message starts with.
pub open spec fn blocking_failure_prefix() -> Seq<char> {
    "failed to build blocking executor service: "@
}

/// The text that a CPU-domain build failure's message starts with.
pub open spec fn cpu_failure_prefix() -> Seq<char> {
    "failed to build cpu executor service: "@
}

/// Formats a blocking-domain build failure: the prefix, then the thread-pool
/// error's `Display` text (`format!`). That the message starts with the
/// prefix is stated; the error's own text is not.
#[verifier::external_body]
fn blocking_failure_message(source: &ExecutorServiceBuilderError) -> (message: String)
    ensures
        message@.len() >= blocking_failure_prefix().len(),
        message@.subrange(0, blocking_failure_prefix().len() as int) == blocking_failure_prefix(),
{
    format!("failed to build blocking executor service: {source}")
}

/// Formats a CPU-domain build failure: the prefix, then the Rayon executor
/// error's `Display` text (`format!`). That the message starts with the
/// prefix is stated; the error's own text is not.
#[verifier::external_body]
fn cpu_failure_message(source: &RayonExecutorServiceBuildError) -> (message: String)
    ensures
        message@.len() >= cpu_failure_prefix().len(),
        message@.subrange(0, cpu_failure_prefix().len() as int) == cpu_failure_prefix(),
{
    format!("failed to build cpu executor service: {source}")
}

impl ExecutionServicesBuildError {
    /// The error's message, as its `Display` text would read.
    pub fn to_message(&self) -> (message: String)
        ensures
            self is NoDomains ==> message@ == "no execution domain is enabled"@,
            self is MissingTokioRuntime ==> message@
                == "a Tokio-backed execution domain requires a Tokio runtime"@,
            self is Blocking ==> message@.len() >= blocking_failure_prefix().len()
                && message@.subrange(0, blocking_failure_prefix().len() as int)
                == blocking_failure_prefix(),
            self is Cpu ==> message@.len() >= cpu_failure_prefix().len() && message@.subrange(
                0,
                cpu_failure_prefix().len() as int,
            ) == cpu_failure_prefix(),
    {
        match self {
            ExecutionServicesBuildError::NoDomains => "no execution domain is enabled".to_owned(),
            ExecutionServicesBuildError::MissingTokioRuntime => {
                "a Tokio-backed execution domain requires a Tokio runtime".to_owned()
            },
            ExecutionServicesBuildError::Blocking { source } => blocking_failure_message(source),
            ExecutionServicesBuildError::Cpu { source } => cpu_failure_message(source),
        }
    }

    /// Whether the error wraps an underlying builder error (its
    /// `Error::source` is `Some`): the blocking and CPU failures do.
    pub fn has_source(&self) -> (wraps: bool)
        ensures
            wraps == (self is Blocking || self is Cpu),
    {
        match self {
            ExecutionServicesBuildError::Blocking { .. } => true,
            ExecutionServicesBuildError::Cpu { .. } => true,
            _ => false,
        }
    }
}

} // verus!
