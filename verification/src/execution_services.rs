//! The facade that owns the enabled execution domains.
use std::sync::Mutex;
use qubit_rayon_executor::RayonExecutorService;
use qubit_thread_pool::ThreadPool;
use qubit_tokio_executor::TokioExecutorService;
use qubit_tokio_executor::TokioIoExecutorService;
use vstd::prelude::*;

use crate::admission_lock::guarded_admission;
use crate::admission_lock::guarded_admission_mut;
use crate::admission_lock::lock_admission;
use crate::admission_lock::new_admission_lock;
use crate::domain_services::blocking_lifecycle;
use crate::domain_services::cpu_lifecycle;
use crate::domain_services::io_lifecycle;
use crate::domain_services::lifecycle_from_domain;
use crate::domain_services::shutdown_blocking;
use crate::domain_services::shutdown_cpu;
use crate::domain_services::shutdown_io;
use crate::domain_services::shutdown_tokio_blocking;
use crate::domain_services::stop_blocking;
use crate::domain_services::stop_cpu;
use crate::domain_services::stop_io;
use crate::domain_services::stop_tokio_blocking;
use crate::domain_services::tokio_blocking_lifecycle;
use crate::execution_domain::ExecutionDomain;
use crate::execution_services_admission::aggregate_lifecycle;
use crate::execution_services_admission::aggregate_lifecycle_spec;
use crate::execution_services_admission::all_enabled_terminated;
use crate::execution_services_admission::any_enabled_not_running;
use crate::execution_services_admission::any_enabled_stopping;
use crate::execution_services_admission::ExecutionServicesAdmission;
use crate::execution_services_builder::initial_settings;
use crate::execution_services_builder::ExecutionServicesBuilder;
use crate::execution_services_stop_report::ExecutionServicesStopReport;
use crate::facade_intent::intent_after_requests;
use crate::facade_intent::lemma_closing_is_permanent;
use crate::facade_intent::CloseRequest;
use crate::facade_intent::FacadeIntent;
use crate::service_lifecycle::ServiceLifecycle;
use crate::submission_error::ExecutionServicesSubmissionError;
use crate::submission_error::SubmissionError;

verus! {

/// Unified facade exposing separate execution domains through one owner.
///
/// The facade routes work to any enabled subset of four dedicated execution
/// domains: `blocking` (a managed thread pool), `cpu` (a Rayon pool),
/// `tokio_blocking` (Tokio `spawn_blocking`) and `io` (Tokio async tasks).
///
/// Each submission checks facade admission before delegating to its domain.
/// The admission lock is released before the domain is called, so a
/// submission that passed admission may overlap shutdown or stop; its domain
/// then decides whether to accept it. Once shutdown or stop returns, every
/// enabled domain has been closed to new work.
pub struct ExecutionServices {
    /// Facade-wide admission state shared by submissions and shutdown operations.
    admission: Mutex<ExecutionServicesAdmission>,
    /// Managed service for synchronous tasks that may block OS threads.
    blocking: Option<ThreadPool>,
    /// Managed service for CPU-bound synchronous tasks.
    cpu: Option<RayonExecutorService>,
    /// Tokio-backed blocking service using `spawn_blocking`.
    tokio_blocking: Option<TokioExecutorService>,
    /// Tokio-backed async service for future-based tasks.
    io: Option<TokioIoExecutorService>,
}

/// The latest states of the four domains, in facade order (blocking, CPU,
/// Tokio blocking, IO), fit a facade whose enabled domains are `enabled`.
pub open spec fn states_fit(enabled: Seq<bool>, states: Seq<Option<ServiceLifecycle>>) -> bool {
    &&& enabled.len() == 4
    &&& states.len() == 4
    &&& forall|i: int| 0 <= i < 4 ==> (#[trigger] states[i] is Some) == enabled[i]
}

/// A lifecycle that the facade can report: the aggregate of some intent and
/// some domain states that fit its enabled domains.
///
/// Once some domain is enabled, every lifecycle is reportable
/// (`lemma_every_lifecycle_is_reportable`): a contract that ties a result to
/// this predicate alone fixes nothing about which lifecycle is reported.
pub open spec fn reportable_lifecycle(enabled: Seq<bool>, lifecycle: ServiceLifecycle) -> bool {
    exists|intent: FacadeIntent, states: Seq<Option<ServiceLifecycle>>|
        states_fit(enabled, states) && lifecycle == #[trigger] aggregate_lifecycle_spec(
            intent,
            states,
        )
}

impl ExecutionServices {
    /// Whether `domain` was enabled when the facade was built.
    pub closed spec fn spec_has_domain(&self, domain: ExecutionDomain) -> bool {
        match domain {
            ExecutionDomain::Blocking => self.blocking is Some,
            ExecutionDomain::Cpu => self.cpu is Some,
            ExecutionDomain::TokioBlocking => self.tokio_blocking is Some,
            ExecutionDomain::Io => self.io is Some,
        }
    }

    /// The blocking domain's thread pool, if enabled.
    pub closed spec fn spec_blocking_pool(&self) -> Option<ThreadPool> {
        self.blocking
    }

    /// The CPU domain's Rayon service, if enabled.
    pub closed spec fn spec_cpu_service(&self) -> Option<RayonExecutorService> {
        self.cpu
    }

    /// The Tokio blocking domain's service, if enabled.
    pub closed spec fn spec_tokio_blocking_service(&self) -> Option<TokioExecutorService> {
        self.tokio_blocking
    }

    /// The Tokio IO domain's service, if enabled.
    pub closed spec fn spec_io_service(&self) -> Option<TokioIoExecutorService> {
        self.io
    }

    /// The enabled flags of the four domains, in facade order.
    pub open spec fn enabled_domains(&self) -> Seq<bool> {
        seq![
            self.spec_has_domain(ExecutionDomain::Blocking),
            self.spec_has_domain(ExecutionDomain::Cpu),
            self.spec_has_domain(ExecutionDomain::TokioBlocking),
            self.spec_has_domain(ExecutionDomain::Io),
        ]
    }

    /// Creates an empty builder for selecting execution domains.
    pub fn builder() -> (builder: ExecutionServicesBuilder)
        ensures
            builder@ == initial_settings(),
    {
        ExecutionServicesBuilder::new()
    }

    /// Returns whether the requested execution domain was enabled.
    pub fn has_domain(&self, domain: ExecutionDomain) -> (enabled: bool)
        ensures
            enabled == self.spec_has_domain(domain),
    {
        match domain {
            ExecutionDomain::Blocking => self.blocking.is_some(),
            ExecutionDomain::Cpu => self.cpu.is_some(),
            ExecutionDomain::TokioBlocking => self.tokio_blocking.is_some(),
            ExecutionDomain::Io => self.io.is_some(),
        }
    }

    /// Creates an execution-services facade from its enabled execution
    /// domains, admitting submissions.
    pub(crate) fn from_parts(
        blocking: Option<ThreadPool>,
        cpu: Option<RayonExecutorService>,
        tokio_blocking: Option<TokioExecutorService>,
        io: Option<TokioIoExecutorService>,
    ) -> (services: Self)
        ensures
            services.spec_has_domain(ExecutionDomain::Blocking) == blocking is Some,
            services.spec_has_domain(ExecutionDomain::Cpu) == cpu is Some,
            services.spec_has_domain(ExecutionDomain::TokioBlocking) == tokio_blocking is Some,
            services.spec_has_domain(ExecutionDomain::Io) == io is Some,
            services.spec_blocking_pool() == blocking,
            services.spec_cpu_service() == cpu,
            services.spec_tokio_blocking_service() == tokio_blocking,
            services.spec_io_service() == io,
    {
        ExecutionServices {
            admission: new_admission_lock(ExecutionServicesAdmission::new()),
            blocking,
            cpu,
            tokio_blocking,
            io,
        }
    }

    /// The blocking domain's thread pool, if that domain is enabled.
    pub fn blocking(&self) -> (service: Option<&ThreadPool>)
        ensures
            service is Some == self.spec_has_domain(ExecutionDomain::Blocking),
            service is Some ==> *service->0 == self.spec_blocking_pool()->0,
    {
        self.blocking.as_ref()
    }

    /// The CPU domain's Rayon service, if that domain is enabled.
    pub fn cpu(&self) -> (service: Option<&RayonExecutorService>)
        ensures
            service is Some == self.spec_has_domain(ExecutionDomain::Cpu),
            service is Some ==> *service->0 == self.spec_cpu_service()->0,
    {
        self.cpu.as_ref()
    }

    /// The Tokio blocking domain's service, if that domain is enabled.
    pub fn tokio_blocking(&self) -> (service: Option<&TokioExecutorService>)
        ensures
            service is Some == self.spec_has_domain(ExecutionDomain::TokioBlocking),
            service is Some ==> *service->0 == self.spec_tokio_blocking_service()->0,
    {
        self.tokio_blocking.as_ref()
    }

    /// The Tokio IO domain's service, if that domain is enabled.
    pub fn io(&self) -> (service: Option<&TokioIoExecutorService>)
        ensures
            service is Some == self.spec_has_domain(ExecutionDomain::Io),
            service is Some ==> *service->0 == self.spec_io_service()->0,
    {
        self.io.as_ref()
    }

    /// Requests graceful shutdown for every execution domain.
    ///
    /// The facade records the shutdown intent (never downgrading a stop)
    /// before closing the enabled domains in facade order.
    pub fn shutdown(&self) {
        {
            let mut guard = lock_admission(&self.admission);
            guarded_admission_mut(&mut guard).request_shutdown();
        }
        match &self.blocking {
            Some(service) => shutdown_blocking(service),
            None => {},
        }
        match &self.cpu {
            Some(service) => shutdown_cpu(service),
            None => {},
        }
        match &self.tokio_blocking {
            Some(service) => shutdown_tokio_blocking(service),
            None => {},
        }
        match &self.io {
            Some(service) => shutdown_io(service),
            None => {},
        }
    }

    /// Requests abrupt stop for every execution domain.
    ///
    /// The facade records the stop intent before stopping the enabled domains
    /// in facade order, and reports each enabled domain's observation.
    pub fn stop(&self) -> (report: ExecutionServicesStopReport)
        ensures
            report.blocking is Some == self.spec_has_domain(ExecutionDomain::Blocking),
            report.cpu is Some == self.spec_has_domain(ExecutionDomain::Cpu),
            report.tokio_blocking is Some == self.spec_has_domain(ExecutionDomain::TokioBlocking),
            report.io is Some == self.spec_has_domain(ExecutionDomain::Io),
    {
        {
            let mut guard = lock_admission(&self.admission);
            guarded_admission_mut(&mut guard).request_stop();
        }
        let blocking = match &self.blocking {
            Some(service) => Some(stop_blocking(service)),
            None => None,
        };
        let cpu = match &self.cpu {
            Some(service) => Some(stop_cpu(service)),
            None => None,
        };
        let tokio_blocking = match &self.tokio_blocking {
            Some(service) => Some(stop_tokio_blocking(service)),
            None => None,
        };
        let io = match &self.io {
            Some(service) => Some(stop_io(service)),
            None => None,
        };
        ExecutionServicesStopReport { blocking, cpu, tokio_blocking, io }
    }

    /// Returns the aggregate lifecycle state.
    ///
    /// The result aggregates the recorded intent with each enabled domain's
    /// current state: `Terminated` once every domain has terminated; before
    /// that, an aggregate stop or shutdown request stays visible, and while
    /// admission is open a stopping domain outranks graceful shutdown.
    pub fn lifecycle(&self) -> (lifecycle: ServiceLifecycle)
        ensures
            reportable_lifecycle(self.enabled_domains(), lifecycle),
    {
        let intent = {
            let guard = lock_admission(&self.admission);
            guarded_admission(&guard).intent()
        };
        let blocking = match &self.blocking {
            Some(service) => Some(lifecycle_from_domain(blocking_lifecycle(service))),
            None => None,
        };
        let cpu = match &self.cpu {
            Some(service) => Some(lifecycle_from_domain(cpu_lifecycle(service))),
            None => None,
        };
        let tokio_blocking = match &self.tokio_blocking {
            Some(service) => Some(lifecycle_from_domain(tokio_blocking_lifecycle(service))),
            None => None,
        };
        let io = match &self.io {
            Some(service) => Some(lifecycle_from_domain(io_lifecycle(service))),
            None => None,
        };
        let states = [blocking, cpu, tokio_blocking, io];
        let lifecycle = aggregate_lifecycle(intent, states);
        proof {
            assert(states_fit(self.enabled_domains(), states@));
            assert(lifecycle == aggregate_lifecycle_spec(intent, states@));
        }
        lifecycle
    }

    /// Returns whether every execution domain is running.
    pub fn is_running(&self) -> (running: bool)
        ensures
            exists|lifecycle: ServiceLifecycle|
                #[trigger] reportable_lifecycle(self.enabled_domains(), lifecycle) && running == (
                lifecycle == ServiceLifecycle::Running),
    {
        let lifecycle = self.lifecycle();
        lifecycle == ServiceLifecycle::Running
    }

    /// Returns whether the facade is gracefully shutting down.
    pub fn is_shutting_down(&self) -> (shutting_down: bool)
        ensures
            exists|lifecycle: ServiceLifecycle|
                #[trigger] reportable_lifecycle(self.enabled_domains(), lifecycle) && shutting_down
                    == (lifecycle == ServiceLifecycle::ShuttingDown),
    {
        let lifecycle = self.lifecycle();
        lifecycle == ServiceLifecycle::ShuttingDown
    }

    /// Returns whether the facade is stopping abruptly.
    pub fn is_stopping(&self) -> (stopping: bool)
        ensures
            exists|lifecycle: ServiceLifecycle|
                #[trigger] reportable_lifecycle(self.enabled_domains(), lifecycle) && stopping == (
                lifecycle == ServiceLifecycle::Stopping),
    {
        let lifecycle = self.lifecycle();
        lifecycle == ServiceLifecycle::Stopping
    }

    /// Returns whether the facade is no longer fully running.
    pub fn is_not_running(&self) -> (not_running: bool)
        ensures
            exists|lifecycle: ServiceLifecycle|
                #[trigger] reportable_lifecycle(self.enabled_domains(), lifecycle) && not_running
                    == (lifecycle != ServiceLifecycle::Running),
    {
        let lifecycle = self.lifecycle();
        lifecycle != ServiceLifecycle::Running
    }

    /// Returns whether every execution domain has terminated.
    pub fn is_terminated(&self) -> (terminated: bool)
        ensures
            exists|lifecycle: ServiceLifecycle|
                #[trigger] reportable_lifecycle(self.enabled_domains(), lifecycle) && terminated
                    == (lifecycle == ServiceLifecycle::Terminated),
    {
        let lifecycle = self.lifecycle();
        lifecycle == ServiceLifecycle::Terminated
    }

    /// Checks facade admission and domain availability, then hands the task
    /// to `submit`, which submits it to `service`.
    ///
    /// The admission state is read under its lock, which is released before
    /// `submit` runs; what happens next is `route_submission` for the state
    /// read: a closed facade answers `Rejected { source: Shutdown }` and a
    /// missing service `DomainDisabled { domain }`, without calling `submit`;
    /// otherwise `submit(service)` runs once and its rejection, if any, comes
    /// back as `Rejected` carrying that reason.
    pub fn submit_to<S, R, F>(
        &self,
        domain: ExecutionDomain,
        service: Option<&S>,
        submit: F,
    ) -> (result: Result<R, ExecutionServicesSubmissionError>)
        where
            F: FnOnce(&S) -> Result<R, SubmissionError>,
        requires
            service matches Some(s) ==> call_requires(submit, (s,)),
        ensures
            exists|accepting: bool| #[trigger] routed(accepting, domain, service, submit, result),
            service is None ==> (result == Err::<R, ExecutionServicesSubmissionError>(
                ExecutionServicesSubmissionError::DomainDisabled { domain },
            ) || result == Err::<R, ExecutionServicesSubmissionError>(
                ExecutionServicesSubmissionError::Rejected { source: SubmissionError::Shutdown },
            )),
            result matches Ok(value) ==> (service matches Some(s) && call_ensures(
                submit,
                (s,),
                Ok::<R, SubmissionError>(value),
            )),
            result matches Err(ExecutionServicesSubmissionError::DomainDisabled { domain: d }) ==> (
            d == domain && service is None),
            result matches Err(ExecutionServicesSubmissionError::Rejected { source }) ==> (source
                == SubmissionError::Shutdown || (service matches Some(s) && call_ensures(
                submit,
                (s,),
                Err::<R, SubmissionError>(source),
            ))),
    {
        let accepting = {
            let guard = lock_admission(&self.admission);
            guarded_admission(&guard).accepts_submissions()
        };
        let result = route_submission(accepting, domain, service, submit);
        proof {
            assert(routed(accepting, domain, service, submit, result));
        }
        result
    }
}


/// The outcome of a submission under a domain's reply: its value, or its
/// rejection carried over as `Rejected`.
pub open spec fn lift_rejection<R>(reply: Result<R, SubmissionError>) -> Result<
    R,
    ExecutionServicesSubmissionError,
> {
    match reply {
        Ok(value) => Ok(value),
        Err(source) => Err(ExecutionServicesSubmissionError::Rejected { source }),
    }
}

/// The submission outcomes allowed when admission reads `accepting`: a
/// closed facade answers `Rejected { source: Shutdown }`; an open one answers
/// `DomainDisabled { domain }` without a service, and otherwise the lifted
/// reply of one call of `submit` on the service.
pub open spec fn routed<S, R, F: FnOnce(&S) -> Result<R, SubmissionError>>(
    accepting: bool,
    domain: ExecutionDomain,
    service: Option<&S>,
    submit: F,
    result: Result<R, ExecutionServicesSubmissionError>,
) -> bool {
    if !accepting {
        result == Err::<R, ExecutionServicesSubmissionError>(
            ExecutionServicesSubmissionError::Rejected { source: SubmissionError::Shutdown },
        )
    } else {
        match service {
            None => result == Err::<R, ExecutionServicesSubmissionError>(
                ExecutionServicesSubmissionError::DomainDisabled { domain },
            ),
            Some(s) => exists|reply: Result<R, SubmissionError>|
                call_ensures(submit, (s,), reply) && result == #[trigger] lift_rejection(reply),
        }
    }
}

/// Routes a submission once admission has been read as `accepting`: the
/// facade's admission comes before the domain's availability, and `submit`
/// is called only when both allow it.
pub fn route_submission<S, R, F>(
    accepting: bool,
    domain: ExecutionDomain,
    service: Option<&S>,
    submit: F,
) -> (result: Result<R, ExecutionServicesSubmissionError>)
    where
        F: FnOnce(&S) -> Result<R, SubmissionError>,
    requires
        accepting ==> (service matches Some(s) ==> call_requires(submit, (s,))),
    ensures
        routed(accepting, domain, service, submit, result),
{
    if !accepting {
        return Err(ExecutionServicesSubmissionError::Rejected { source: SubmissionError::Shutdown });
    }
    match service {
        Some(service) => {
            let reply = submit(service);
            let result = match reply {
                Ok(value) => Ok(value),
                Err(source) => Err(ExecutionServicesSubmissionError::Rejected { source }),
            };
            proof {
                assert(result == lift_rejection(reply));
            }
            result
        },
        None => Err(ExecutionServicesSubmissionError::DomainDisabled { domain }),
    }
}

/// Once shutdown or stop has been requested, whatever closing requests came
/// after it, admission reads closed and every submission is answered
/// `Rejected { source: Shutdown }`, enabled domain or not, and no task is
/// handed to a domain.
pub proof fn lemma_closed_facade_rejects_every_submission<S, R, F: FnOnce(&S) -> Result<R, SubmissionError>>(
    start: FacadeIntent,
    requests: Seq<CloseRequest>,
    domain: ExecutionDomain,
    service: Option<&S>,
    submit: F,
    result: Result<R, ExecutionServicesSubmissionError>,
)
    requires
        requests.len() > 0,
        routed(intent_after_requests(start, requests).accepts(), domain, service, submit, result),
    ensures
        result == Err::<R, ExecutionServicesSubmissionError>(
            ExecutionServicesSubmissionError::Rejected { source: SubmissionError::Shutdown },
        ),
{
    lemma_closing_is_permanent(start, requests);
}

/// While admission is open, a submission to a disabled domain is answered
/// `DomainDisabled` with that domain, and one to an enabled domain carries
/// the domain's own reply.
pub proof fn lemma_open_facade_routes_to_the_domain<S, R, F: FnOnce(&S) -> Result<R, SubmissionError>>(
    domain: ExecutionDomain,
    service: Option<&S>,
    submit: F,
    result: Result<R, ExecutionServicesSubmissionError>,
)
    requires
        routed(true, domain, service, submit, result),
    ensures
        service is None ==> result == Err::<R, ExecutionServicesSubmissionError>(
            ExecutionServicesSubmissionError::DomainDisabled { domain },
        ),
        service matches Some(s) ==> (exists|reply: Result<R, SubmissionError>|
            call_ensures(submit, (s,), reply) && result == #[trigger] lift_rejection(reply)),
{
}

/// Every lifecycle is reportable by a facade with some enabled domain, so
/// `reportable_lifecycle` rules out no result on its own.
pub proof fn lemma_every_lifecycle_is_reportable(enabled: Seq<bool>, lifecycle: ServiceLifecycle)
    requires
        enabled.len() == 4,
        exists|i: int| 0 <= i < 4 && #[trigger] enabled[i],
    ensures
        reportable_lifecycle(enabled, lifecycle),
{
    let k = choose|i: int| 0 <= i < 4 && #[trigger] enabled[i];
    let domain_state = if lifecycle == ServiceLifecycle::Terminated {
        ServiceLifecycle::Terminated
    } else {
        ServiceLifecycle::Running
    };
    let states = Seq::new(4, |i: int| if enabled[i] { Some(domain_state) } else { None });
    let intent = match lifecycle {
        ServiceLifecycle::ShuttingDown => FacadeIntent::ShuttingDown,
        ServiceLifecycle::Stopping => FacadeIntent::Stopping,
        _ => FacadeIntent::Running,
    };
    assert(states_fit(enabled, states));
    assert(states[k] == Some(domain_state));
    if lifecycle != ServiceLifecycle::Terminated {
        assert(!all_enabled_terminated(states));
        assert(!any_enabled_stopping(states));
        assert(!any_enabled_not_running(states));
    } else {
        assert(all_enabled_terminated(states));
    }
    assert(lifecycle == aggregate_lifecycle_spec(intent, states));
}

} // verus!
