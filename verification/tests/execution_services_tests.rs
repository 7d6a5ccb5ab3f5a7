//! Tests for `ExecutionServices`.

use std::io;
use std::sync::mpsc;
use std::time::Duration;

use qubit_execution_services::ExecutionDomain;
use qubit_execution_services::ExecutionServices;
use qubit_execution_services::ExecutionServicesSubmissionError;
use qubit_execution_services::ServiceLifecycle;
use qubit_execution_services::SubmissionError;
use qubit_executor::service::ExecutorService;
use qubit_executor::service::SubmissionError as DomainRejection;
use qubit_executor::CancelResult;
use tokio::runtime::Builder;
use tokio::runtime::Runtime;


fn domain_rejection(rejection: DomainRejection) -> SubmissionError {
    match rejection {
        DomainRejection::Shutdown => SubmissionError::Shutdown,
        DomainRejection::Saturated => SubmissionError::Saturated,
        DomainRejection::InvalidDeadline => SubmissionError::InvalidDeadline,
        DomainRejection::WorkerSpawnFailed { source } => SubmissionError::WorkerSpawnFailed { source },
    }
}

fn create_runtime() -> Runtime {
    Builder::new_current_thread()
        .enable_all()
        .build()
        .expect("Failed to create tokio runtime for execution services tests")
}

fn await_all_domains(runtime: &Runtime, services: &ExecutionServices) {
    runtime.block_on(async {
        if let Some(service) = services.blocking() {
            service.await_termination().await;
        }
        if let Some(service) = services.cpu() {
            service.await_termination().await;
        }
        if let Some(service) = services.tokio_blocking() {
            service.await_termination().await;
        }
        if let Some(service) = services.io() {
            service.await_termination().await;
        }
    });
}

#[test]
fn test_execution_services_submit_blocking_and_cpu_tasks() {
    let runtime = create_runtime();
    let services = ExecutionServices::builder()
        .enable_all(runtime.handle().clone())
        .blocking_pool_size(1)
        .cpu_threads(1)
        .build()
        .expect("execution services should be created");
    assert_eq!(services.lifecycle(), ServiceLifecycle::Running);

    let blocking = services
        .submit_to(ExecutionDomain::Blocking, services.blocking(), |service| {
            service.submit_callable(|| Ok::<usize, io::Error>(40 + 2)).map_err(domain_rejection)
        })
        .expect("blocking domain should accept callable");
    let cpu = services
        .submit_to(ExecutionDomain::Cpu, services.cpu(), |service| {
            service.submit_callable(|| Ok::<usize, io::Error>(6 * 7)).map_err(domain_rejection)
        })
        .expect("cpu domain should accept callable");

    assert_eq!(blocking.get().expect("blocking task should complete successfully"), 42);
    assert_eq!(cpu.get().expect("cpu task should complete successfully"), 42);
    services.shutdown();
    assert!(services.is_not_running());
    await_all_domains(&create_runtime(), &services);
    assert!(services.is_not_running());
    assert!(services.is_terminated());
    assert_eq!(services.lifecycle(), ServiceLifecycle::Terminated);
}

#[test]
fn test_execution_services_cpu_capacity_rejects_and_reuses_slots() {
    let runtime = create_runtime();
    let services = ExecutionServices::builder()
        .enable_all(runtime.handle().clone())
        .blocking_pool_size(1)
        .cpu_threads(1)
        .cpu_task_capacity(2)
        .build()
        .expect("execution services should be created");
    let (started_tx, started_rx) = mpsc::channel();
    let (release_tx, release_rx) = mpsc::channel();
    let running = services
        .submit_to(ExecutionDomain::Cpu, services.cpu(), |service| {
            service.submit_tracked(move || {
                started_tx.send(()).expect("cpu task should start");
                release_rx.recv().expect("cpu task should be released");
                Ok::<(), io::Error>(())
            }).map_err(domain_rejection)
        })
        .expect("running CPU task should be accepted");
    started_rx.recv().expect("cpu task should start");
    let queued = services
        .submit_to(ExecutionDomain::Cpu, services.cpu(), |service| {
            service.submit_tracked(|| Ok::<(), io::Error>(())).map_err(domain_rejection)
        })
        .expect("queued CPU task should be accepted");
    assert!(matches!(
        services.submit_to(ExecutionDomain::Cpu, services.cpu(), |service| {
            service.submit_callable(|| Ok::<(), io::Error>(())).map_err(domain_rejection)
        }),
        Err(ExecutionServicesSubmissionError::Rejected { source: SubmissionError::Saturated })
    ));
    assert_eq!(queued.cancel(), CancelResult::Cancelled);
    queued.get().expect_err("queued task should be cancelled");
    let replacement = services
        .submit_to(ExecutionDomain::Cpu, services.cpu(), |service| {
            service.submit_callable(|| Ok::<(), io::Error>(())).map_err(domain_rejection)
        })
        .expect("cancelled CPU capacity should be reusable");
    release_tx.send(()).expect("running CPU task should be released");
    running.get().expect("running CPU task should finish");
    replacement.get().expect("replacement CPU task should finish");
    services.shutdown();
    await_all_domains(&create_runtime(), &services);
}

#[test]
fn test_execution_services_submit_sync_runnables_and_tracked_callables() {
    let runtime = create_runtime();
    let services = ExecutionServices::builder()
        .enable_all(runtime.handle().clone())
        .blocking_pool_size(1)
        .cpu_threads(1)
        .build()
        .expect("execution services should be created");
    let (sender, receiver) = mpsc::channel();
    let blocking_sender = sender.clone();
    let cpu_sender = sender;

    services
        .submit_to(ExecutionDomain::Blocking, services.blocking(), |service| {
            service.submit(move || {
                blocking_sender
                    .send("blocking")
                    .expect("blocking runnable should report completion");
                Ok::<(), io::Error>(())
            }).map_err(domain_rejection)
        })
        .expect("blocking domain should accept runnable");
    let blocking_callable = services
        .submit_to(ExecutionDomain::Blocking, services.blocking(), |service| {
            service.submit_tracked_callable(|| Ok::<usize, io::Error>(40 + 2)).map_err(domain_rejection)
        })
        .expect("blocking domain should accept tracked callable");
    services
        .submit_to(ExecutionDomain::Cpu, services.cpu(), |service| {
            service.submit(move || {
                cpu_sender.send("cpu").expect("cpu runnable should report completion");
                Ok::<(), io::Error>(())
            }).map_err(domain_rejection)
        })
        .expect("cpu domain should accept runnable");
    let cpu_callable = services
        .submit_to(ExecutionDomain::Cpu, services.cpu(), |service| {
            service.submit_tracked_callable(|| Ok::<usize, io::Error>(6 * 7)).map_err(domain_rejection)
        })
        .expect("cpu domain should accept tracked callable");

    let mut completed = [
        receiver
            .recv_timeout(Duration::from_secs(2))
            .expect("first runnable should complete"),
        receiver
            .recv_timeout(Duration::from_secs(2))
            .expect("second runnable should complete"),
    ];
    completed.sort_unstable();
    assert_eq!(completed, ["blocking", "cpu"]);
    assert_eq!(
        blocking_callable
            .get()
            .expect("blocking tracked callable should complete"),
        42,
    );
    assert_eq!(cpu_callable.get().expect("cpu tracked callable should complete"), 42);

    services.shutdown();
    await_all_domains(&create_runtime(), &services);
}

#[test]
fn test_execution_services_reports_shutdown_while_task_is_running() {
    let runtime = create_runtime();
    let services = ExecutionServices::builder()
        .enable_all(runtime.handle().clone())
        .blocking_pool_size(1)
        .cpu_threads(1)
        .build()
        .expect("execution services should be created");
    let (started_sender, started_receiver) = mpsc::channel();
    let (release_sender, release_receiver) = mpsc::channel();

    services
        .submit_to(ExecutionDomain::Blocking, services.blocking(), |service| {
            service.submit(move || {
                started_sender.send(()).expect("blocking task should report start");
                release_receiver
                    .recv_timeout(Duration::from_secs(2))
                    .expect("blocking task should be released");
                Ok::<(), io::Error>(())
            }).map_err(domain_rejection)
        })
        .expect("blocking domain should accept runnable");
    started_receiver
        .recv_timeout(Duration::from_secs(2))
        .expect("blocking task should start");

    services.shutdown();
    assert!(services.is_shutting_down());
    assert!(services.is_not_running());
    release_sender.send(()).expect("blocking task release should be sent");
    await_all_domains(&create_runtime(), &services);
    assert!(services.is_terminated());
}

#[test]
fn test_submission_to_disabled_domain_is_reported() {
    let services = ExecutionServices::builder()
        .enable_blocking()
        .blocking_pool_size(1)
        .build()
        .expect("execution services should be created");
    let result = services.submit_to(ExecutionDomain::Cpu, services.cpu(), |service| {
        service.submit(|| Ok::<(), io::Error>(())).map_err(domain_rejection)
    });
    assert!(matches!(
        result,
        Err(ExecutionServicesSubmissionError::DomainDisabled { domain: ExecutionDomain::Cpu })
    ));
    services.shutdown();
}

#[test]
fn test_shutdown_rejects_submissions_with_shutdown_even_for_disabled_domains() {
    let services = ExecutionServices::builder()
        .enable_blocking()
        .blocking_pool_size(1)
        .build()
        .expect("execution services should be created");
    services.shutdown();
    assert!(matches!(
        services.submit_to(ExecutionDomain::Blocking, services.blocking(), |service| {
            service.submit(|| Ok::<(), io::Error>(())).map_err(domain_rejection)
        }),
        Err(ExecutionServicesSubmissionError::Rejected { source: SubmissionError::Shutdown })
    ));
    assert!(matches!(
        services.submit_to(ExecutionDomain::Cpu, services.cpu(), |service| {
            service.submit(|| Ok::<(), io::Error>(())).map_err(domain_rejection)
        }),
        Err(ExecutionServicesSubmissionError::Rejected { source: SubmissionError::Shutdown })
    ));
}

#[test]
fn test_stop_intent_survives_a_later_shutdown() {
    let services = ExecutionServices::builder()
        .enable_blocking()
        .blocking_pool_size(1)
        .build()
        .expect("execution services should be created");
    let (started_sender, started_receiver) = mpsc::channel();
    let (release_sender, release_receiver) = mpsc::channel();
    services
        .submit_to(ExecutionDomain::Blocking, services.blocking(), |service| {
            service.submit(move || {
                started_sender.send(()).expect("blocking task should report start");
                release_receiver
                    .recv_timeout(Duration::from_secs(5))
                    .expect("blocking task should be released");
                Ok::<(), io::Error>(())
            }).map_err(domain_rejection)
        })
        .expect("blocking domain should accept the task");
    started_receiver
        .recv_timeout(Duration::from_secs(5))
        .expect("blocking task should start");

    services.shutdown();
    let _report = services.stop();
    services.shutdown();
    assert_eq!(services.lifecycle(), ServiceLifecycle::Stopping);
    assert!(services.is_stopping());

    release_sender.send(()).expect("blocking task should be released");
    await_all_domains(&create_runtime(), &services);
    assert_eq!(services.lifecycle(), ServiceLifecycle::Terminated);
}
