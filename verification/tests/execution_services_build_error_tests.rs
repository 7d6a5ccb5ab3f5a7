//! Tests for `ExecutionServicesBuildError`.

use qubit_execution_services::ExecutionServices;
use qubit_execution_services::ExecutionServicesBuildError;

/// Build error variants expose the underlying builder failure.
#[test]
fn test_execution_services_build_error_display_and_source() {
    let blocking_error = match ExecutionServices::builder()
        .enable_blocking()
        .blocking_maximum_pool_size(0)
        .build()
    {
        Ok(_) => panic!("invalid blocking pool size should fail"),
        Err(error) => error,
    };

    assert!(matches!(blocking_error, ExecutionServicesBuildError::Blocking { .. }));
    assert!(blocking_error
        .to_message()
        .starts_with("failed to build blocking executor service:"));
    assert!(blocking_error.has_source());

    let cpu_error = match ExecutionServices::builder().enable_cpu().cpu_threads(0).build() {
        Ok(_) => panic!("invalid cpu thread count should fail"),
        Err(error) => error,
    };

    assert!(matches!(cpu_error, ExecutionServicesBuildError::Cpu { .. }));
    assert!(cpu_error.to_message().starts_with("failed to build cpu executor service:"));
    assert!(cpu_error.has_source());
}

#[test]
fn test_facade_level_build_errors_have_messages_and_no_source() {
    let no_domains = ExecutionServices::builder().build().err().expect("no domain is enabled");
    assert_eq!(no_domains.to_message(), "no execution domain is enabled");
    assert!(!no_domains.has_source());
    let no_runtime = ExecutionServices::builder().enable_io().build().err().expect("no runtime");
    assert_eq!(no_runtime.to_message(), "a Tokio-backed execution domain requires a Tokio runtime");
    assert!(!no_runtime.has_source());
}
