//! Runs the quick start that README.md documents and checks the results it
//! documents.

use std::io;

use qubit_execution_services::ExecutionDomain;
use qubit_execution_services::ExecutionServices;
use qubit_execution_services::SubmissionError;
use qubit_executor::service::ExecutorService;
use qubit_executor::service::SubmissionError as DomainRejection;


fn domain_rejection(rejection: DomainRejection) -> SubmissionError {
    match rejection {
        DomainRejection::Shutdown => SubmissionError::Shutdown,
        DomainRejection::Saturated => SubmissionError::Saturated,
        DomainRejection::InvalidDeadline => SubmissionError::InvalidDeadline,
        DomainRejection::WorkerSpawnFailed { source } => SubmissionError::WorkerSpawnFailed { source },
    }
}

#[test]
fn test_documented_quick_start_examples_match_the_runnable_example() {
    let runtime = tokio::runtime::Builder::new_current_thread()
        .enable_all()
        .build()
        .expect("runtime should build");

    runtime.block_on(async {
        let services = ExecutionServices::builder()
            .runtime(runtime.handle().clone())
            .enable_blocking()
            .enable_cpu()
            .enable_io()
            .blocking_pool_size(4)
            .blocking_queue_capacity(1024)
            .cpu_threads(4)
            .cpu_task_capacity(1024)
            .build()
            .expect("quick-start facade should build");

        let blocking = services
            .submit_to(ExecutionDomain::Blocking, services.blocking(), |service| {
                service.submit_callable(|| Ok::<usize, io::Error>(40 + 2)).map_err(domain_rejection)
            })
            .expect("blocking domain should accept the callable");
        let cpu = services
            .submit_to(ExecutionDomain::Cpu, services.cpu(), |service| {
                service.submit_callable(|| Ok::<usize, io::Error>((1..=10).sum())).map_err(domain_rejection)
            })
            .expect("cpu domain should accept the callable");
        let io = services
            .submit_to(ExecutionDomain::Io, services.io(), |service| {
                service.spawn(async { Ok::<usize, io::Error>(6 * 7) }).map_err(domain_rejection)
            })
            .expect("io domain should accept the future");

        assert_eq!(blocking.await.expect("blocking result"), 42);
        assert_eq!(cpu.await.expect("cpu result"), 55);
        assert_eq!(io.await.expect("io result"), 42);

        services.shutdown();
        if let Some(service) = services.blocking() {
            service.await_termination().await;
        }
        if let Some(service) = services.cpu() {
            service.await_termination().await;
        }
        if let Some(service) = services.io() {
            service.await_termination().await;
        }
        assert!(services.is_terminated());
    });
}
