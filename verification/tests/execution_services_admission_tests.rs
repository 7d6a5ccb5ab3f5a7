//! Tests for the admission state and the aggregate lifecycle.

use std::io;

use qubit_execution_services::aggregate_lifecycle;
use qubit_execution_services::ExecutionDomain;
use qubit_execution_services::ExecutionServices;
use qubit_execution_services::ExecutionServicesAdmission;
use qubit_execution_services::ExecutionServicesSubmissionError;
use qubit_execution_services::FacadeIntent;
use qubit_execution_services::ServiceLifecycle;
use qubit_execution_services::ServiceLifecycle::Running;
use qubit_execution_services::ServiceLifecycle::ShuttingDown;
use qubit_execution_services::ServiceLifecycle::Stopping;
use qubit_execution_services::ServiceLifecycle::Terminated;
use qubit_execution_services::SubmissionError;
use qubit_execution_services::route_submission;

#[test]
fn test_aggregate_lifecycle_preserves_stop_intent_until_all_domains_terminate() {

    assert_eq!(
        aggregate_lifecycle(
            FacadeIntent::Stopping,
            [Some(Terminated), Some(ShuttingDown), Some(Terminated), Some(Running)],
        ),
        Stopping,
    );
    assert_eq!(aggregate_lifecycle(FacadeIntent::Stopping, [Some(Terminated); 4]), Terminated);
}

#[test]
fn test_aggregate_lifecycle_prioritizes_stop_over_graceful_shutdown() {

    assert_eq!(
        aggregate_lifecycle(
            FacadeIntent::Running,
            [Some(Running), Some(Stopping), Some(ShuttingDown), Some(Terminated)],
        ),
        Stopping,
    );
}

#[test]
fn test_admission_closes_after_shutdown_and_stop_is_not_downgraded() {

    let mut admission = ExecutionServicesAdmission::new();
    let accepted = admission.submit_if_admitted(|| Ok::<_, SubmissionError>(7));
    assert_eq!(accepted, Ok(7));
    assert!(admission.intent() == FacadeIntent::Running);

    admission.request_shutdown();
    assert!(admission.intent() == FacadeIntent::ShuttingDown);
    assert_eq!(admission.submit_if_admitted(|| Ok(9)), Err(SubmissionError::Shutdown));

    admission.request_stop();
    assert!(admission.intent() == FacadeIntent::Stopping);
    admission.request_shutdown();
    assert!(admission.intent() == FacadeIntent::Stopping);
    assert_eq!(admission.lifecycle([Some(Running); 4]), Stopping);
}

#[test]
fn test_admit_callback_may_request_shutdown() {
    let services = ExecutionServices::builder()
        .enable_blocking()
        .blocking_pool_size(1)
        .build()
        .expect("execution services should be created");
    let result = services.submit_to(ExecutionDomain::Blocking, services.blocking(), |_| {
        services.shutdown();
        Err::<(), _>(SubmissionError::Saturated)
    });
    assert!(matches!(
        result,
        Err(ExecutionServicesSubmissionError::Rejected { source: SubmissionError::Saturated })
    ));
    assert!(matches!(
        services.lifecycle(),
        ServiceLifecycle::ShuttingDown | ServiceLifecycle::Terminated
    ));
    assert!(matches!(
        services.submit_to(ExecutionDomain::Blocking, services.blocking(), |_| Ok::<u8, SubmissionError>(1)),
        Err(ExecutionServicesSubmissionError::Rejected { source: SubmissionError::Shutdown })
    ));
}

#[test]
fn test_fresh_admission_accepts_and_runs_the_submission() {
    let admission = ExecutionServicesAdmission::new();
    assert!(admission.accepts_submissions());
    let result: Result<u8, ExecutionServicesSubmissionError> = admission.submit_if_admitted(|| Ok(3));
    assert!(matches!(result, Ok(3)));
}

#[test]
fn test_closed_admission_answers_with_shutdown_rejection() {
    let mut admission = ExecutionServicesAdmission::new();
    admission.request_stop();
    assert!(!admission.accepts_submissions());
    let mut called = false;
    let result: Result<u8, ExecutionServicesSubmissionError> = admission.submit_if_admitted(|| {
        called = true;
        Ok(3)
    });
    assert!(!called);
    assert!(matches!(
        result,
        Err(ExecutionServicesSubmissionError::Rejected { source: SubmissionError::Shutdown })
    ));
}

#[test]
fn test_intent_transitions() {
    assert_eq!(FacadeIntent::Running.after_shutdown(), FacadeIntent::ShuttingDown);
    assert_eq!(FacadeIntent::ShuttingDown.after_shutdown(), FacadeIntent::ShuttingDown);
    assert_eq!(FacadeIntent::Stopping.after_shutdown(), FacadeIntent::Stopping);
    assert_eq!(FacadeIntent::Running.after_stop(), FacadeIntent::Stopping);
    assert_eq!(FacadeIntent::ShuttingDown.after_stop(), FacadeIntent::Stopping);
    assert!(FacadeIntent::Running.accepts());
    assert!(!FacadeIntent::ShuttingDown.accepts());
    assert!(!FacadeIntent::Stopping.accepts());
}

#[test]
fn test_aggregate_lifecycle_rules() {

    // Every enabled domain running, admission open.
    assert_eq!(aggregate_lifecycle(FacadeIntent::Running, [Some(Running), None, None, Some(Running)]), Running);
    // A domain that left running while admission is open reads as shutting down.
    assert_eq!(
        aggregate_lifecycle(FacadeIntent::Running, [Some(Running), Some(Terminated), None, None]),
        ShuttingDown,
    );
    // Disabled domains do not count; enabled ones all terminated.
    assert_eq!(aggregate_lifecycle(FacadeIntent::Running, [None, Some(Terminated), None, None]), Terminated);
    // A recorded shutdown stays visible until termination.
    assert_eq!(
        aggregate_lifecycle(FacadeIntent::ShuttingDown, [Some(Running), Some(Stopping), None, None]),
        ShuttingDown,
    );
    // With no enabled domain at all, every domain has terminated.
    assert_eq!(aggregate_lifecycle(FacadeIntent::Running, [None; 4]), Terminated);
}

#[test]
fn test_submission_error_compares_by_category() {
    let first = SubmissionError::WorkerSpawnFailed { source: std::sync::Arc::new(io::Error::other("a")) };
    let second = SubmissionError::WorkerSpawnFailed { source: std::sync::Arc::new(io::Error::other("b")) };
    assert_eq!(first, second);
    assert_ne!(SubmissionError::Shutdown, SubmissionError::Saturated);
    assert_eq!(SubmissionError::InvalidDeadline, SubmissionError::InvalidDeadline);
}

#[test]
fn test_route_submission_checks_admission_before_the_domain() {
    let closed = route_submission(false, ExecutionDomain::Io, None::<&u8>, |value| Ok::<u8, SubmissionError>(*value));
    assert!(matches!(
        closed,
        Err(ExecutionServicesSubmissionError::Rejected { source: SubmissionError::Shutdown })
    ));
    let disabled = route_submission(true, ExecutionDomain::Io, None::<&u8>, |value| Ok::<u8, SubmissionError>(*value));
    assert!(matches!(
        disabled,
        Err(ExecutionServicesSubmissionError::DomainDisabled { domain: ExecutionDomain::Io })
    ));
    let value: u8 = 7;
    let accepted = route_submission(true, ExecutionDomain::Io, Some(&value), |value| Ok::<u8, SubmissionError>(*value + 1));
    assert!(matches!(accepted, Ok(8)));
    let rejected = route_submission(true, ExecutionDomain::Io, Some(&value), |_| Err::<u8, _>(SubmissionError::InvalidDeadline));
    assert!(matches!(
        rejected,
        Err(ExecutionServicesSubmissionError::Rejected { source: SubmissionError::InvalidDeadline })
    ));
}
