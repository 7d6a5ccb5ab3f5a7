//! The executor services behind the four execution domains, and the calls
//! that the facade makes on them.
use qubit_executor::service::ExecutorService;
use qubit_executor::service::ExecutorServiceBuilderError;
use qubit_executor::service::ExecutorServiceLifecycle;
use qubit_executor::service::StopReport;
use qubit_rayon_executor::RayonExecutorService;
use qubit_rayon_executor::RayonExecutorServiceBuildError;
use qubit_thread_pool::ThreadPool;
use qubit_tokio_executor::TokioExecutorService;
use qubit_tokio_executor::TokioIoExecutorService;
use vstd::prelude::*;

use crate::service_lifecycle::ServiceLifecycle;

verus! {

#[verifier::external_type_specification]
#[verifier::external_body]
pub struct ExThreadPool(ThreadPool);

#[verifier::external_type_specification]
#[verifier::external_body]
pub struct ExRayonExecutorService(RayonExecutorService);

#[verifier::external_type_specification]
#[verifier::external_body]
pub struct ExTokioExecutorService(TokioExecutorService);

#[verifier::external_type_specification]
#[verifier::external_body]
pub struct ExTokioIoExecutorService(TokioIoExecutorService);

#[verifier::external_type_specification]
#[verifier::external_body]
pub struct ExStopReport(StopReport);

/// Reads a domain's lifecycle (`ExecutorServiceLifecycle`) as the facade's
/// lifecycle type, variant for variant.
#[verifier::external_body]
pub(crate) fn lifecycle_from_domain(state: ExecutorServiceLifecycle) -> ServiceLifecycle {
    match state {
        ExecutorServiceLifecycle::Running => ServiceLifecycle::Running,
        ExecutorServiceLifecycle::ShuttingDown => ServiceLifecycle::ShuttingDown,
        ExecutorServiceLifecycle::Stopping => ServiceLifecycle::Stopping,
        ExecutorServiceLifecycle::Terminated => ServiceLifecycle::Terminated,
    }
}

#[verifier::external_type_specification]
#[verifier::external_body]
pub struct ExExecutorServiceLifecycle(ExecutorServiceLifecycle);

/// Requests graceful shutdown of the blocking pool
/// (`ExecutorService::shutdown` for `ThreadPool`).
#[verifier::external_body]
pub(crate) fn shutdown_blocking(service: &ThreadPool) {
    service.shutdown()
}

/// Requests graceful shutdown of the CPU service
/// (`ExecutorService::shutdown` for `RayonExecutorService`).
#[verifier::external_body]
pub(crate) fn shutdown_cpu(service: &RayonExecutorService) {
    service.shutdown()
}

/// Requests graceful shutdown of the Tokio blocking service
/// (`ExecutorService::shutdown` for `TokioExecutorService`).
#[verifier::external_body]
pub(crate) fn shutdown_tokio_blocking(service: &TokioExecutorService) {
    service.shutdown()
}

/// Requests graceful shutdown of the Tokio IO service
/// (`TokioIoExecutorService::shutdown`).
#[verifier::external_body]
pub(crate) fn shutdown_io(service: &TokioIoExecutorService) {
    service.shutdown()
}

/// Stops the blocking pool abruptly (`ExecutorService::stop` for
/// `ThreadPool`). The counts depend on the pool's state at that moment:
/// nothing is stated of them.
#[verifier::external_body]
pub(crate) fn stop_blocking(service: &ThreadPool) -> StopReport {
    service.stop()
}

/// Stops the CPU service abruptly (`ExecutorService::stop` for
/// `RayonExecutorService`); nothing is stated of the counts.
#[verifier::external_body]
pub(crate) fn stop_cpu(service: &RayonExecutorService) -> StopReport {
    service.stop()
}

/// Stops the Tokio blocking service abruptly (`ExecutorService::stop` for
/// `TokioExecutorService`); nothing is stated of the counts.
#[verifier::external_body]
pub(crate) fn stop_tokio_blocking(service: &TokioExecutorService) -> StopReport {
    service.stop()
}

/// Stops the Tokio IO service abruptly (`TokioIoExecutorService::stop`);
/// nothing is stated of the counts.
#[verifier::external_body]
pub(crate) fn stop_io(service: &TokioIoExecutorService) -> StopReport {
    service.stop()
}

/// The blocking pool's current lifecycle (`ExecutorService::lifecycle` for
/// `ThreadPool`). It changes as work runs: nothing is stated of it.
#[verifier::external_body]
pub(crate) fn blocking_lifecycle(service: &ThreadPool) -> ExecutorServiceLifecycle {
    service.lifecycle()
}

/// The CPU service's current lifecycle (`ExecutorService::lifecycle` for
/// `RayonExecutorService`); nothing is stated of it.
#[verifier::external_body]
pub(crate) fn cpu_lifecycle(service: &RayonExecutorService) -> ExecutorServiceLifecycle {
    service.lifecycle()
}

/// The Tokio blocking service's current lifecycle
/// (`ExecutorService::lifecycle` for `TokioExecutorService`); nothing is
/// stated of it.
#[verifier::external_body]
pub(crate) fn tokio_blocking_lifecycle(service: &TokioExecutorService) -> ExecutorServiceLifecycle {
    service.lifecycle()
}

/// The Tokio IO service's current lifecycle
/// (`TokioIoExecutorService::lifecycle`); nothing is stated of it.
#[verifier::external_body]
pub(crate) fn io_lifecycle(service: &TokioIoExecutorService) -> ExecutorServiceLifecycle {
    service.lifecycle()
}

/// The queue capacity a blocking pool was built with; `None` is an
/// unbounded queue. The pool keeps it for its whole life (no setter of
/// `ThreadPool` changes it).
pub uninterp spec fn pool_queue_capacity(pool: ThreadPool) -> Option<usize>;

/// The accepted-task capacity a CPU service was built with; it never changes
/// afterwards.
pub uninterp spec fn cpu_task_capacity(service: RayonExecutorService) -> usize;

/// The number of Rayon worker threads a CPU service was built with; it never
/// changes afterwards.
pub uninterp spec fn cpu_thread_count(service: RayonExecutorService) -> usize;

/// The accepted-task capacity a Tokio blocking service was created with; it
/// never changes afterwards.
pub uninterp spec fn tokio_blocking_capacity(service: TokioExecutorService) -> usize;

/// The accepted-future capacity a Tokio IO service was created with; it
/// never changes afterwards.
pub uninterp spec fn io_capacity(service: TokioIoExecutorService) -> usize;

/// The variants of `ExecutorServiceBuilderError`.
#[derive(Debug, Clone, Copy, PartialEq, Eq, Structural)]
pub enum PoolBuildErrorKind {
    ZeroPoolSize,
    ZeroMaximumPoolSize,
    CorePoolSizeExceedsMaximum,
    ZeroQueueCapacity,
    ZeroStackSize,
    ZeroKeepAlive,
    SpawnWorker,
}

/// The variant of a blocking-pool build error.
pub uninterp spec fn pool_build_error_kind(error: ExecutorServiceBuilderError) -> PoolBuildErrorKind;

/// The variants of `RayonExecutorServiceBuildError`.
#[derive(Debug, Clone, Copy, PartialEq, Eq, Structural)]
pub enum CpuBuildErrorKind {
    ZeroThreadCount,
    ZeroStackSize,
    ZeroTaskCapacity,
    BuildFailed,
}

/// The variant of a CPU-service build error.
pub uninterp spec fn cpu_build_error_kind(error: RayonExecutorServiceBuildError) -> CpuBuildErrorKind;

} // verus!
