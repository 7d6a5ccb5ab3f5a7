//! Aggregated execution-services facade for blocking, CPU-bound, Tokio
//! blocking, and async IO work.
//!
//! The facade's own decisions are verified: the admission state and its
//! closing requests, the aggregate lifecycle, submission routing, the stop
//! report's shape and the builder's checks. The executor services that run
//! the work come from the `qubit-*` executor crates.
mod admission_lock;
mod domain_services;
pub mod execution_domain;
pub mod execution_services;
pub mod execution_services_admission;
pub mod execution_services_build_error;
pub mod execution_services_builder;
pub mod execution_services_stop_report;
pub mod facade_intent;
pub mod service_lifecycle;
pub mod submission_error;

pub use execution_domain::ExecutionDomain;
pub use execution_services::route_submission;
pub use execution_services::ExecutionServices;
pub use execution_services_admission::aggregate_lifecycle;
pub use execution_services_admission::ExecutionServicesAdmission;
pub use execution_services_build_error::ExecutionServicesBuildError;
pub use execution_services_builder::BuilderSettings;
pub use execution_services_builder::ExecutionServicesBuilder;
pub use execution_services_builder::DEFAULT_BLOCKING_QUEUE_CAPACITY;
pub use execution_services_builder::DEFAULT_TOKIO_TASK_CAPACITY;
pub use execution_services_stop_report::ExecutionServicesStopReport;
pub use facade_intent::CloseRequest;
pub use facade_intent::FacadeIntent;
pub use service_lifecycle::ServiceLifecycle;
pub use submission_error::ExecutionServicesSubmissionError;
pub use submission_error::SubmissionError;
