//! Builder for the execution-services facade.
use std::time::Duration;
use std::num::NonZeroUsize;
use qubit_executor::service::ExecutorServiceBuilderError;
use qubit_rayon_executor::RayonExecutorService;
use qubit_rayon_executor::RayonExecutorServiceBuildError;
use qubit_thread_pool::ThreadPool;
use qubit_tokio_executor::TokioExecutorService;
use qubit_tokio_executor::TokioIoExecutorService;
use tokio::runtime::Handle;
use vstd::prelude::*;

use crate::domain_services::cpu_build_error_kind;
use crate::domain_services::cpu_task_capacity;
use crate::domain_services::cpu_thread_count;
use crate::domain_services::io_capacity;
use crate::domain_services::pool_build_error_kind;
use crate::domain_services::pool_queue_capacity;
use crate::domain_services::tokio_blocking_capacity;
use crate::domain_services::CpuBuildErrorKind;
use crate::domain_services::PoolBuildErrorKind;
use crate::execution_domain::ExecutionDomain;
use crate::execution_services::ExecutionServices;
use crate::execution_services_build_error::ExecutionServicesBuildError;

verus! {

#[verifier::external_type_specification]
#[verifier::external_body]
pub struct ExHandle(Handle);

/// `Handle::clone`: another handle to the same Tokio runtime. Nothing is
/// stated of it.
pub assume_specification[ <Handle as Clone>::clone ](handle: &Handle) -> Handle;

/// Creates the Tokio blocking service on `runtime` with at most `capacity`
/// accepted unfinished tasks (`TokioExecutorService::with_task_capacity`).
#[verifier::external_body]
fn tokio_blocking_service(runtime: Handle, capacity: usize) -> (service: TokioExecutorService)
    requires
        capacity > 0,
    ensures
        tokio_blocking_capacity(service) == capacity,
{
    TokioExecutorService::with_task_capacity(runtime, NonZeroUsize::new(capacity).expect("capacity is nonzero"))
}

/// Creates the Tokio IO service on `runtime` with at most `capacity`
/// accepted unfinished futures (`TokioIoExecutorService::with_task_capacity`).
#[verifier::external_body]
fn tokio_io_service(runtime: Handle, capacity: usize) -> (service: TokioIoExecutorService)
    requires
        capacity > 0,
    ensures
        io_capacity(service) == capacity,
{
    TokioIoExecutorService::with_task_capacity(runtime, NonZeroUsize::new(capacity).expect("capacity is nonzero"))
}

/// Maximum number of blocking tasks waiting in the default queue.
pub const DEFAULT_BLOCKING_QUEUE_CAPACITY: usize = 1024;

/// Maximum unfinished-task capacity for each Tokio-backed domain by default.
pub const DEFAULT_TOKIO_TASK_CAPACITY: usize = 1024;

/// The blocking-pool settings the builder has been given, as values.
///
/// `None` leaves the thread-pool builder's own default in place; a queue
/// capacity of `None` means an unbounded queue.
pub struct BlockingPoolView {
    pub core_pool_size: Option<usize>,
    pub maximum_pool_size: Option<usize>,
    pub queue_capacity: Option<usize>,
    pub thread_name_prefix: Option<Seq<char>>,
    pub stack_size: Option<usize>,
    pub keep_alive: Option<Duration>,
    pub allow_core_thread_timeout: Option<bool>,
    pub prestart_core_threads: bool,
}

/// The CPU-service settings the builder has been given, as values; `None`
/// leaves the Rayon executor builder's own default in place.
pub struct CpuPoolView {
    pub num_threads: Option<usize>,
    pub task_capacity: Option<usize>,
    pub thread_name_prefix: Option<Seq<char>>,
    pub stack_size: Option<usize>,
}

/// The view of an optional owned string.
pub open spec fn optional_text(text: Option<String>) -> Option<Seq<char>> {
    match text {
        Some(value) => Some(value@),
        None => None,
    }
}

/// Settings handed to the thread-pool builder when the blocking domain is
/// built.
struct BlockingPoolSettings {
    core_pool_size: Option<usize>,
    maximum_pool_size: Option<usize>,
    queue_capacity: Option<usize>,
    thread_name_prefix: Option<String>,
    stack_size: Option<usize>,
    keep_alive: Option<Duration>,
    allow_core_thread_timeout: Option<bool>,
    prestart_core_threads: bool,
}

impl View for BlockingPoolSettings {
    type V = BlockingPoolView;

    closed spec fn view(&self) -> BlockingPoolView {
        BlockingPoolView {
            core_pool_size: self.core_pool_size,
            maximum_pool_size: self.maximum_pool_size,
            queue_capacity: self.queue_capacity,
            thread_name_prefix: optional_text(self.thread_name_prefix),
            stack_size: self.stack_size,
            keep_alive: self.keep_alive,
            allow_core_thread_timeout: self.allow_core_thread_timeout,
            prestart_core_threads: self.prestart_core_threads,
        }
    }
}

/// Copies an optional owned string.
fn copy_text(text: &Option<String>) -> (copy: Option<String>)
    ensures
        optional_text(copy) == optional_text(*text),
{
    match text {
        Some(value) => Some(value.clone()),
        None => None,
    }
}

impl BlockingPoolSettings {
    /// The settings of a new builder: a queue bounded at 1024 tasks,
    /// everything else left to the thread-pool builder's defaults.
    fn new() -> (settings: Self)
        ensures
            settings@ == initial_blocking_view(),
    {
        BlockingPoolSettings {
            core_pool_size: None,
            maximum_pool_size: None,
            queue_capacity: Some(DEFAULT_BLOCKING_QUEUE_CAPACITY),
            thread_name_prefix: None,
            stack_size: None,
            keep_alive: None,
            allow_core_thread_timeout: None,
            prestart_core_threads: false,
        }
    }

    fn copy(&self) -> (copy: Self)
        ensures
            copy@ == self@,
    {
        BlockingPoolSettings {
            core_pool_size: self.core_pool_size,
            maximum_pool_size: self.maximum_pool_size,
            queue_capacity: self.queue_capacity,
            thread_name_prefix: copy_text(&self.thread_name_prefix),
            stack_size: self.stack_size,
            keep_alive: self.keep_alive,
            allow_core_thread_timeout: self.allow_core_thread_timeout,
            prestart_core_threads: self.prestart_core_threads,
        }
    }

}

/// Settings handed to the Rayon executor builder when the CPU domain is
/// built.
struct CpuPoolSettings {
    num_threads: Option<usize>,
    task_capacity: Option<usize>,
    thread_name_prefix: Option<String>,
    stack_size: Option<usize>,
}

impl View for CpuPoolSettings {
    type V = CpuPoolView;

    closed spec fn view(&self) -> CpuPoolView {
        CpuPoolView {
            num_threads: self.num_threads,
            task_capacity: self.task_capacity,
            thread_name_prefix: optional_text(self.thread_name_prefix),
            stack_size: self.stack_size,
        }
    }
}

impl CpuPoolSettings {
    /// The settings of a new builder: everything left to the Rayon executor
    /// builder's defaults.
    fn new() -> (settings: Self)
        ensures
            settings@ == initial_cpu_view(),
    {
        CpuPoolSettings { num_threads: None, task_capacity: None, thread_name_prefix: None, stack_size: None }
    }

    fn copy(&self) -> (copy: Self)
        ensures
            copy@ == self@,
    {
        CpuPoolSettings {
            num_threads: self.num_threads,
            task_capacity: self.task_capacity,
            thread_name_prefix: copy_text(&self.thread_name_prefix),
            stack_size: self.stack_size,
        }
    }

}

/// Settings the thread-pool builder rejects whatever the machine: a zero
/// maximum pool size, a core size above the maximum, a zero queue capacity
/// or a zero stack size (`ThreadPoolBuilder::build` validates these).
pub open spec fn blocking_settings_rejected(settings: BlockingPoolView) -> bool {
    ||| settings.maximum_pool_size == Some(0usize)
    ||| (settings.core_pool_size matches Some(core) && settings.maximum_pool_size matches Some(
        maximum,
    ) && core > maximum)
    ||| settings.queue_capacity == Some(0usize)
    ||| settings.stack_size == Some(0usize)
}

/// Settings the thread-pool builder accepts on every machine and builds
/// without starting a thread: both pool sizes left to the default (the same
/// detected parallelism) or both given with a positive maximum and
/// `core <= maximum`, a queue capacity that is not zero, a stack size that is
/// not zero, the default keep-alive, and no prestarted core threads.
pub open spec fn blocking_settings_accepted(settings: BlockingPoolView) -> bool {
    &&& ((settings.core_pool_size is None && settings.maximum_pool_size is None) || (
    settings.core_pool_size matches Some(core) && settings.maximum_pool_size matches Some(maximum)
        && 0 < maximum && core <= maximum))
    &&& settings.queue_capacity != Some(0usize)
    &&& settings.stack_size != Some(0usize)
    &&& settings.keep_alive is None
    &&& !settings.prestart_core_threads
}

/// Settings the Rayon executor builder rejects: zero threads, a zero task
/// capacity or a zero stack size (`RayonExecutorServiceBuilder::build`
/// checks these before it starts any thread).
pub open spec fn cpu_settings_rejected(settings: CpuPoolView) -> bool {
    ||| settings.num_threads == Some(0usize)
    ||| settings.task_capacity == Some(0usize)
    ||| settings.stack_size == Some(0usize)
}

/// Whether a blocking-pool build error of `kind` can come from `settings`
/// (qubit-thread-pool 0.12.1 `ThreadPoolBuilder::build`): a zero maximum
/// pool size only when it was given as zero (the default is at least one);
/// a core size above the maximum when both were given that way, or when one
/// of them is left to the detected parallelism; a zero queue or stack size
/// only when given as zero; a zero keep-alive only when a keep-alive was
/// given; a failed worker spawn only when core threads are prestarted. This
/// builder never reports a zero fixed pool size.
pub open spec fn blocking_error_explained(settings: BlockingPoolView, kind: PoolBuildErrorKind) -> bool {
    match kind {
        PoolBuildErrorKind::ZeroPoolSize => false,
        PoolBuildErrorKind::ZeroMaximumPoolSize => settings.maximum_pool_size == Some(0usize),
        PoolBuildErrorKind::CorePoolSizeExceedsMaximum => match (
            settings.core_pool_size,
            settings.maximum_pool_size,
        ) {
            (Some(core), Some(maximum)) => core > maximum,
            (None, None) => false,
            _ => true,
        },
        PoolBuildErrorKind::ZeroQueueCapacity => settings.queue_capacity == Some(0usize),
        PoolBuildErrorKind::ZeroStackSize => settings.stack_size == Some(0usize),
        PoolBuildErrorKind::ZeroKeepAlive => settings.keep_alive is Some,
        PoolBuildErrorKind::SpawnWorker => settings.prestart_core_threads,
    }
}

/// Whether a CPU-service build error of `kind` can come from `settings`
/// (qubit-rayon-executor 0.9.0 `RayonExecutorServiceBuilder::build`): each
/// zero check only when that setting was given as zero; a failed Rayon pool
/// start whatever the settings.
pub open spec fn cpu_error_explained(settings: CpuPoolView, kind: CpuBuildErrorKind) -> bool {
    match kind {
        CpuBuildErrorKind::ZeroThreadCount => settings.num_threads == Some(0usize),
        CpuBuildErrorKind::ZeroStackSize => settings.stack_size == Some(0usize),
        CpuBuildErrorKind::ZeroTaskCapacity => settings.task_capacity == Some(0usize),
        CpuBuildErrorKind::BuildFailed => true,
    }
}

/// The accepted-task capacity a CPU service gets from `settings`: the given
/// one, or the Rayon executor builder's default of 1024.
pub open spec fn configured_cpu_task_capacity(settings: CpuPoolView) -> usize {
    match settings.task_capacity {
        Some(capacity) => capacity,
        None => 1024usize,
    }
}

/// Builds the blocking pool: each given setting is applied to
/// `ThreadPool::builder()` with the setter of the same name (a queue
/// capacity of `None` with `unbounded_queue`), then `ThreadPoolBuilder::build`
/// runs.
///
/// What `build` validates (qubit-thread-pool 0.12.1, `validate`) is stated:
/// rejected settings give a validation error, every error is one these
/// settings can give, and settings accepted on every machine give `Ok`,
/// since without prestarting no thread is started. The pool keeps the queue
/// capacity it was given.
#[verifier::external_body]
fn build_blocking_pool(settings: &BlockingPoolSettings) -> (pool: Result<ThreadPool, ExecutorServiceBuilderError>)
    ensures
        blocking_settings_rejected(settings@) ==> pool is Err,
        blocking_settings_rejected(settings@) ==> pool_build_error_kind(pool->Err_0)
            != PoolBuildErrorKind::ZeroKeepAlive,
        blocking_settings_rejected(settings@) ==> pool_build_error_kind(pool->Err_0)
            != PoolBuildErrorKind::SpawnWorker,
        pool is Err ==> blocking_error_explained(settings@, pool_build_error_kind(pool->Err_0)),
        blocking_settings_accepted(settings@) ==> pool is Ok,
        pool is Ok ==> pool_queue_capacity(pool->Ok_0) == settings@.queue_capacity,
{
    let mut b = ThreadPool::builder();
    if let Some(n) = settings.core_pool_size { b = b.core_pool_size(n); }
    if let Some(n) = settings.maximum_pool_size { b = b.maximum_pool_size(n); }
    b = match settings.queue_capacity { Some(n) => b.queue_capacity(n), None => b.unbounded_queue() };
    if let Some(p) = &settings.thread_name_prefix { b = b.thread_name_prefix(p); }
    if let Some(n) = settings.stack_size { b = b.stack_size(n); }
    if let Some(d) = settings.keep_alive { b = b.keep_alive(d); }
    if let Some(a) = settings.allow_core_thread_timeout { b = b.allow_core_thread_timeout(a); }
    if settings.prestart_core_threads { b = b.prestart_core_threads(); }
    b.build()
}

/// Builds the CPU service: each given setting is applied to
/// `RayonExecutorService::builder()` with the setter of the same name, then
/// `RayonExecutorServiceBuilder::build` runs.
///
/// Rejected settings give a validation error (qubit-rayon-executor 0.9.0
/// checks them first), and every error is one these settings can give.
/// Otherwise the Rayon pool is started, which can fail on the machine: no
/// success is stated. The service carries the given thread count and the
/// given task capacity, 1024 by default.
#[verifier::external_body]
fn build_cpu_service(settings: &CpuPoolSettings) -> (service: Result<RayonExecutorService, RayonExecutorServiceBuildError>)
    ensures
        cpu_settings_rejected(settings@) ==> service is Err,
        cpu_settings_rejected(settings@) ==> cpu_build_error_kind(service->Err_0)
            != CpuBuildErrorKind::BuildFailed,
        service is Err ==> cpu_error_explained(settings@, cpu_build_error_kind(service->Err_0)),
        service is Ok ==> cpu_task_capacity(service->Ok_0) == configured_cpu_task_capacity(settings@),
        service is Ok && settings@.num_threads is Some ==> cpu_thread_count(service->Ok_0)
            == settings@.num_threads->0,
{
    let mut b = RayonExecutorService::builder();
    if let Some(n) = settings.num_threads { b = b.num_threads(n); }
    if let Some(n) = settings.task_capacity { b = b.task_capacity(n); }
    if let Some(p) = &settings.thread_name_prefix { b = b.thread_name_prefix(p); }
    if let Some(n) = settings.stack_size { b = b.stack_size(n); }
    b.build()
}

/// The blocking-pool settings of a new builder.
pub open spec fn initial_blocking_view() -> BlockingPoolView {
    BlockingPoolView {
        core_pool_size: None,
        maximum_pool_size: None,
        queue_capacity: Some(DEFAULT_BLOCKING_QUEUE_CAPACITY),
        thread_name_prefix: None,
        stack_size: None,
        keep_alive: None,
        allow_core_thread_timeout: None,
        prestart_core_threads: false,
    }
}

/// The CPU-service settings of a new builder.
pub open spec fn initial_cpu_view() -> CpuPoolView {
    CpuPoolView { num_threads: None, task_capacity: None, thread_name_prefix: None, stack_size: None }
}

/// The settings of a new builder: no domain enabled, no runtime, a blocking
/// queue bounded at 1024 tasks, both Tokio task capacities 1024.
pub open spec fn initial_settings() -> BuilderSettings {
    BuilderSettings {
        runtime_set: false,
        blocking_enabled: false,
        cpu_enabled: false,
        tokio_blocking_enabled: false,
        io_enabled: false,
        tokio_blocking_task_capacity: DEFAULT_TOKIO_TASK_CAPACITY as nat,
        io_task_capacity: DEFAULT_TOKIO_TASK_CAPACITY as nat,
        blocking: initial_blocking_view(),
        cpu: initial_cpu_view(),
    }
}

/// The builder's plain settings: which domains are enabled, whether a Tokio
/// runtime was supplied, the Tokio domains' task capacities, and the
/// blocking-pool and CPU-service settings.
pub struct BuilderSettings {
    pub runtime_set: bool,
    pub blocking_enabled: bool,
    pub cpu_enabled: bool,
    pub tokio_blocking_enabled: bool,
    pub io_enabled: bool,
    pub tokio_blocking_task_capacity: nat,
    pub io_task_capacity: nat,
    pub blocking: BlockingPoolView,
    pub cpu: CpuPoolView,
}

impl BuilderSettings {
    /// Whether any domain is enabled.
    pub open spec fn any_enabled(self) -> bool {
        self.blocking_enabled || self.cpu_enabled || self.tokio_blocking_enabled || self.io_enabled
    }

    /// Whether a Tokio-backed domain is enabled.
    pub open spec fn needs_runtime(self) -> bool {
        self.tokio_blocking_enabled || self.io_enabled
    }

    /// Whether the facade-level checks pass: some domain is enabled, and a
    /// runtime was supplied if a Tokio-backed domain is enabled.
    pub open spec fn prechecks_pass(self) -> bool {
        self.any_enabled() && (self.needs_runtime() ==> self.runtime_set)
    }

    /// Whether `domain` is enabled.
    pub open spec fn enables(self, domain: ExecutionDomain) -> bool {
        match domain {
            ExecutionDomain::Blocking => self.blocking_enabled,
            ExecutionDomain::Cpu => self.cpu_enabled,
            ExecutionDomain::TokioBlocking => self.tokio_blocking_enabled,
            ExecutionDomain::Io => self.io_enabled,
        }
    }
}

/// Enabling any domain rules out `NoDomains`.
pub proof fn lemma_enabled_domain_rules_out_no_domains(settings: BuilderSettings, domain: ExecutionDomain)
    requires
        settings.enables(domain),
    ensures
        settings.any_enabled(),
{
}

/// Blocking-only, CPU-only and blocking-and-CPU configurations need no Tokio
/// runtime: they pass the facade-level checks without one.
pub proof fn lemma_runtime_free_configurations(settings: BuilderSettings)
    requires
        settings.blocking_enabled || settings.cpu_enabled,
        !settings.tokio_blocking_enabled,
        !settings.io_enabled,
    ensures
        settings.prechecks_pass(),
{
}

/// `enable_all` always passes the facade-level checks, whatever was set
/// before it.
pub proof fn lemma_enable_all_passes_prechecks(settings: BuilderSettings)
    ensures
        (BuilderSettings {
            runtime_set: true,
            blocking_enabled: true,
            cpu_enabled: true,
            tokio_blocking_enabled: true,
            io_enabled: true,
            ..settings
        }).prechecks_pass(),
{
}

/// Builder for explicitly selecting and configuring `ExecutionServices`
/// domains.
///
/// Blocking-pool options are delegated to the thread-pool builder and CPU
/// options to the Rayon executor builder. The builder also holds finite
/// accepted-task capacities for the Tokio-backed domains; Tokio runtime
/// settings remain application-owned.
pub struct ExecutionServicesBuilder {
    /// Optional Tokio runtime used by enabled Tokio-backed domains.
    runtime: Option<Handle>,
    /// Whether the blocking domain is included.
    blocking_enabled: bool,
    /// Whether the CPU domain is included.
    cpu_enabled: bool,
    /// Whether the Tokio blocking domain is included.
    tokio_blocking_enabled: bool,
    /// Whether the Tokio IO domain is included.
    io_enabled: bool,
    /// Settings for the blocking executor domain.
    blocking: BlockingPoolSettings,
    /// Settings for the CPU executor domain.
    cpu: CpuPoolSettings,
    /// Maximum accepted unfinished tasks in the Tokio blocking domain.
    tokio_blocking_task_capacity: usize,
    /// Maximum accepted unfinished futures in the Tokio IO domain.
    io_task_capacity: usize,
}

impl View for ExecutionServicesBuilder {
    type V = BuilderSettings;

    closed spec fn view(&self) -> BuilderSettings {
        BuilderSettings {
            runtime_set: self.runtime is Some,
            blocking_enabled: self.blocking_enabled,
            cpu_enabled: self.cpu_enabled,
            tokio_blocking_enabled: self.tokio_blocking_enabled,
            io_enabled: self.io_enabled,
            tokio_blocking_task_capacity: self.tokio_blocking_task_capacity as nat,
            io_task_capacity: self.io_task_capacity as nat,
            blocking: self.blocking@,
            cpu: self.cpu@,
        }
    }
}

impl ExecutionServicesBuilder {
    /// The builder's invariant: both Tokio task capacities are nonzero.
    #[verifier::type_invariant]
    closed spec fn wf(&self) -> bool {
        &&& self.tokio_blocking_task_capacity > 0
        &&& self.io_task_capacity > 0
    }

    /// The Tokio runtime supplied to the builder, if any.
    pub closed spec fn runtime_handle(&self) -> Option<Handle> {
        self.runtime
    }

    /// Creates an empty builder with default settings for each domain.
    ///
    /// No domain is enabled initially. A Tokio runtime is required only if a
    /// Tokio-backed domain is enabled. The default blocking queue holds 1024
    /// waiting tasks and both Tokio task capacities are 1024; blocking pool
    /// and CPU thread counts default to the detected CPU parallelism.
    pub fn new() -> (builder: Self)
        ensures
            builder@ == initial_settings(),
    {
        ExecutionServicesBuilder {
            runtime: None,
            blocking_enabled: false,
            cpu_enabled: false,
            tokio_blocking_enabled: false,
            io_enabled: false,
            blocking: BlockingPoolSettings::new(),
            cpu: CpuPoolSettings::new(),
            tokio_blocking_task_capacity: DEFAULT_TOKIO_TASK_CAPACITY,
            io_task_capacity: DEFAULT_TOKIO_TASK_CAPACITY,
        }
    }

    /// Enables all four execution domains and sets their shared Tokio runtime.
    pub fn enable_all(self, runtime: Handle) -> (builder: Self)
        ensures
            builder@ == (BuilderSettings {
                runtime_set: true,
                blocking_enabled: true,
                cpu_enabled: true,
                tokio_blocking_enabled: true,
                io_enabled: true,
                ..self@
            }),
            builder.runtime_handle() == Some(runtime),
    {
        proof {
            use_type_invariant(&self);
        }
        let mut builder = self;
        builder.runtime = Some(runtime);
        builder.blocking_enabled = true;
        builder.cpu_enabled = true;
        builder.tokio_blocking_enabled = true;
        builder.io_enabled = true;
        builder
    }

    /// Enables the managed blocking execution domain.
    pub fn enable_blocking(self) -> (builder: Self)
        ensures
            builder@ == (BuilderSettings { blocking_enabled: true, ..self@ }),
            builder.runtime_handle() == self.runtime_handle(),
    {
        proof {
            use_type_invariant(&self);
        }
        let mut builder = self;
        builder.blocking_enabled = true;
        builder
    }

    /// Enables the Rayon-backed CPU execution domain.
    pub fn enable_cpu(self) -> (builder: Self)
        ensures
            builder@ == (BuilderSettings { cpu_enabled: true, ..self@ }),
            builder.runtime_handle() == self.runtime_handle(),
    {
        proof {
            use_type_invariant(&self);
        }
        let mut builder = self;
        builder.cpu_enabled = true;
        builder
    }

    /// Enables the Tokio `spawn_blocking` execution domain.
    pub fn enable_tokio_blocking(self) -> (builder: Self)
        ensures
            builder@ == (BuilderSettings { tokio_blocking_enabled: true, ..self@ }),
            builder.runtime_handle() == self.runtime_handle(),
    {
        proof {
            use_type_invariant(&self);
        }
        let mut builder = self;
        builder.tokio_blocking_enabled = true;
        builder
    }

    /// Enables the Tokio async IO execution domain.
    pub fn enable_io(self) -> (builder: Self)
        ensures
            builder@ == (BuilderSettings { io_enabled: true, ..self@ }),
            builder.runtime_handle() == self.runtime_handle(),
    {
        proof {
            use_type_invariant(&self);
        }
        let mut builder = self;
        builder.io_enabled = true;
        builder
    }

    /// Sets the runtime used by enabled Tokio-backed execution domains.
    pub fn runtime(self, runtime: Handle) -> (builder: Self)
        ensures
            builder@ == (BuilderSettings { runtime_set: true, ..self@ }),
            builder.runtime_handle() == Some(runtime),
    {
        proof {
            use_type_invariant(&self);
        }
        let mut builder = self;
        builder.runtime = Some(runtime);
        builder
    }

    /// Sets the maximum accepted unfinished tasks in the Tokio blocking domain.
    ///
    /// The capacity bounds queued and running blocking tasks and must be
    /// nonzero.
    pub fn tokio_blocking_task_capacity(self, capacity: usize) -> (builder: Self)
        requires
            capacity > 0,
        ensures
            builder@ == (BuilderSettings { tokio_blocking_task_capacity: capacity as nat, ..self@ }),
            builder.runtime_handle() == self.runtime_handle(),
    {
        proof {
            use_type_invariant(&self);
        }
        let mut builder = self;
        builder.tokio_blocking_task_capacity = capacity;
        builder
    }

    /// Sets the maximum accepted unfinished futures in the Tokio IO domain.
    ///
    /// The capacity bounds async futures not yet completed and must be
    /// nonzero.
    pub fn io_task_capacity(self, capacity: usize) -> (builder: Self)
        requires
            capacity > 0,
        ensures
            builder@ == (BuilderSettings { io_task_capacity: capacity as nat, ..self@ }),
            builder.runtime_handle() == self.runtime_handle(),
    {
        proof {
            use_type_invariant(&self);
        }
        let mut builder = self;
        builder.io_task_capacity = capacity;
        builder
    }

    /// Sets both the blocking core and maximum pool sizes to the same value.
    ///
    /// Only this blocking-pool setting changes.
    pub fn blocking_pool_size(self, pool_size: usize) -> (builder: Self)
        ensures
            builder@ == (BuilderSettings {
                blocking: BlockingPoolView {
                    core_pool_size: Some(pool_size),
                    maximum_pool_size: Some(pool_size),
                    ..self@.blocking
                },
                ..self@
            }),
            builder.runtime_handle() == self.runtime_handle(),
    {
        proof {
            use_type_invariant(&self);
        }
        let mut builder = self;
        builder.blocking.core_pool_size = Some(pool_size);
        builder.blocking.maximum_pool_size = Some(pool_size);
        builder
    }

    /// Sets the blocking core pool size.
    ///
    /// Only this blocking-pool setting changes.
    pub fn blocking_core_pool_size(self, core_pool_size: usize) -> (builder: Self)
        ensures
            builder@ == (BuilderSettings {
                blocking: BlockingPoolView {
                    core_pool_size: Some(core_pool_size),
                    ..self@.blocking
                },
                ..self@
            }),
            builder.runtime_handle() == self.runtime_handle(),
    {
        proof {
            use_type_invariant(&self);
        }
        let mut builder = self;
        builder.blocking.core_pool_size = Some(core_pool_size);
        builder
    }

    /// Sets the blocking maximum pool size.
    ///
    /// The blocking pool grows beyond its core size only when its queue is
    /// bounded and full; with an unbounded queue this setting alone creates no
    /// burst workers.
    ///
    /// Only this blocking-pool setting changes.
    pub fn blocking_maximum_pool_size(self, maximum_pool_size: usize) -> (builder: Self)
        ensures
            builder@ == (BuilderSettings {
                blocking: BlockingPoolView {
                    maximum_pool_size: Some(maximum_pool_size),
                    ..self@.blocking
                },
                ..self@
            }),
            builder.runtime_handle() == self.runtime_handle(),
    {
        proof {
            use_type_invariant(&self);
        }
        let mut builder = self;
        builder.blocking.maximum_pool_size = Some(maximum_pool_size);
        builder
    }

    /// Sets a bounded queue capacity for the blocking domain.
    ///
    /// Only this blocking-pool setting changes.
    pub fn blocking_queue_capacity(self, capacity: usize) -> (builder: Self)
        ensures
            builder@ == (BuilderSettings {
                blocking: BlockingPoolView {
                    queue_capacity: Some(capacity),
                    ..self@.blocking
                },
                ..self@
            }),
            builder.runtime_handle() == self.runtime_handle(),
    {
        proof {
            use_type_invariant(&self);
        }
        let mut builder = self;
        builder.blocking.queue_capacity = Some(capacity);
        builder
    }

    /// Configures the blocking domain to use an unbounded queue.
    ///
    /// Submissions keep queueing after the core size is reached; a larger
    /// maximum pool size does not change that.
    ///
    /// Only this blocking-pool setting changes.
    pub fn blocking_unbounded_queue(self) -> (builder: Self)
        ensures
            builder@ == (BuilderSettings {
                blocking: BlockingPoolView {
                    queue_capacity: None,
                    ..self@.blocking
                },
                ..self@
            }),
            builder.runtime_handle() == self.runtime_handle(),
    {
        proof {
            use_type_invariant(&self);
        }
        let mut builder = self;
        builder.blocking.queue_capacity = None;
        builder
    }

    /// Sets the blocking worker-thread name prefix.
    ///
    /// Only this blocking-pool setting changes.
    pub fn blocking_thread_name_prefix(self, prefix: &str) -> (builder: Self)
        ensures
            builder@ == (BuilderSettings {
                blocking: BlockingPoolView {
                    thread_name_prefix: Some(prefix@),
                    ..self@.blocking
                },
                ..self@
            }),
            builder.runtime_handle() == self.runtime_handle(),
    {
        proof {
            use_type_invariant(&self);
        }
        let mut builder = self;
        builder.blocking.thread_name_prefix = Some(prefix.to_owned());
        builder
    }

    /// Sets the blocking worker-thread stack size in bytes.
    ///
    /// Only this blocking-pool setting changes.
    pub fn blocking_stack_size(self, stack_size: usize) -> (builder: Self)
        ensures
            builder@ == (BuilderSettings {
                blocking: BlockingPoolView {
                    stack_size: Some(stack_size),
                    ..self@.blocking
                },
                ..self@
            }),
            builder.runtime_handle() == self.runtime_handle(),
    {
        proof {
            use_type_invariant(&self);
        }
        let mut builder = self;
        builder.blocking.stack_size = Some(stack_size);
        builder
    }

    /// Sets the idle timeout after which blocking workers allowed to retire do so.
    ///
    /// Only this blocking-pool setting changes.
    pub fn blocking_keep_alive(self, keep_alive: Duration) -> (builder: Self)
        ensures
            builder@ == (BuilderSettings {
                blocking: BlockingPoolView {
                    keep_alive: Some(keep_alive),
                    ..self@.blocking
                },
                ..self@
            }),
            builder.runtime_handle() == self.runtime_handle(),
    {
        proof {
            use_type_invariant(&self);
        }
        let mut builder = self;
        builder.blocking.keep_alive = Some(keep_alive);
        builder
    }

    /// Allows blocking core workers to retire after the keep-alive timeout.
    ///
    /// Only this blocking-pool setting changes.
    pub fn blocking_allow_core_thread_timeout(self, allow: bool) -> (builder: Self)
        ensures
            builder@ == (BuilderSettings {
                blocking: BlockingPoolView {
                    allow_core_thread_timeout: Some(allow),
                    ..self@.blocking
                },
                ..self@
            }),
            builder.runtime_handle() == self.runtime_handle(),
    {
        proof {
            use_type_invariant(&self);
        }
        let mut builder = self;
        builder.blocking.allow_core_thread_timeout = Some(allow);
        builder
    }

    /// Starts all blocking core workers during build.
    ///
    /// Only this blocking-pool setting changes.
    pub fn blocking_prestart_core_threads(self) -> (builder: Self)
        ensures
            builder@ == (BuilderSettings {
                blocking: BlockingPoolView {
                    prestart_core_threads: true,
                    ..self@.blocking
                },
                ..self@
            }),
            builder.runtime_handle() == self.runtime_handle(),
    {
        proof {
            use_type_invariant(&self);
        }
        let mut builder = self;
        builder.blocking.prestart_core_threads = true;
        builder
    }

    /// Sets the number of Rayon worker threads in the CPU domain.
    ///
    /// Only this CPU-service setting changes.
    pub fn cpu_threads(self, num_threads: usize) -> (builder: Self)
        ensures
            builder@ == (BuilderSettings {
                cpu: CpuPoolView {
                    num_threads: Some(num_threads),
                    ..self@.cpu
                },
                ..self@
            }),
            builder.runtime_handle() == self.runtime_handle(),
    {
        proof {
            use_type_invariant(&self);
        }
        let mut builder = self;
        builder.cpu.num_threads = Some(num_threads);
        builder
    }

    /// Sets the maximum number of accepted unfinished CPU tasks, running and
    /// queued.
    ///
    /// Only this CPU-service setting changes.
    pub fn cpu_task_capacity(self, capacity: usize) -> (builder: Self)
        ensures
            builder@ == (BuilderSettings {
                cpu: CpuPoolView {
                    task_capacity: Some(capacity),
                    ..self@.cpu
                },
                ..self@
            }),
            builder.runtime_handle() == self.runtime_handle(),
    {
        proof {
            use_type_invariant(&self);
        }
        let mut builder = self;
        builder.cpu.task_capacity = Some(capacity);
        builder
    }

    /// Sets the Rayon worker-thread name prefix in the CPU domain.
    ///
    /// Only this CPU-service setting changes.
    pub fn cpu_thread_name_prefix(self, prefix: &str) -> (builder: Self)
        ensures
            builder@ == (BuilderSettings {
                cpu: CpuPoolView {
                    thread_name_prefix: Some(prefix@),
                    ..self@.cpu
                },
                ..self@
            }),
            builder.runtime_handle() == self.runtime_handle(),
    {
        proof {
            use_type_invariant(&self);
        }
        let mut builder = self;
        builder.cpu.thread_name_prefix = Some(prefix.to_owned());
        builder
    }

    /// Sets the Rayon worker-thread stack size in bytes in the CPU domain.
    ///
    /// Only this CPU-service setting changes.
    pub fn cpu_stack_size(self, stack_size: usize) -> (builder: Self)
        ensures
            builder@ == (BuilderSettings {
                cpu: CpuPoolView {
                    stack_size: Some(stack_size),
                    ..self@.cpu
                },
                ..self@
            }),
            builder.runtime_handle() == self.runtime_handle(),
    {
        proof {
            use_type_invariant(&self);
        }
        let mut builder = self;
        builder.cpu.stack_size = Some(stack_size);
        builder
    }

    /// Builds the configured execution-services facade.
    ///
    /// The facade-level checks come first: no enabled domain gives
    /// `NoDomains`, and an enabled Tokio-backed domain without a runtime gives
    /// `MissingTokioRuntime`. Then the blocking domain is built, then the CPU
    /// domain; the first of them that rejects its configuration gives
    /// `Blocking` or `Cpu` and nothing after it is built. The Tokio-backed
    /// domains cannot fail to build. The blocking and CPU settings are handed
    /// to the thread-pool and Rayon executor builders, which validate them.
    pub fn build(self) -> (result: Result<ExecutionServices, ExecutionServicesBuildError>)
        ensures
            (result matches Err(ExecutionServicesBuildError::NoDomains)) <==> !self@.any_enabled(),
            (result matches Err(ExecutionServicesBuildError::MissingTokioRuntime)) <==> (
            self@.any_enabled() && self@.needs_runtime() && !self@.runtime_set),
            result matches Err(ExecutionServicesBuildError::Blocking { .. }) ==> (
            self@.prechecks_pass() && self@.blocking_enabled),
            result matches Err(ExecutionServicesBuildError::Cpu { .. }) ==> (self@.prechecks_pass()
                && self@.cpu_enabled),
            result matches Ok(services) ==> self@.prechecks_pass() && (forall|domain: ExecutionDomain|
                #[trigger] services.spec_has_domain(domain) == self@.enables(domain)),
            self@.prechecks_pass() && !self@.blocking_enabled && !self@.cpu_enabled ==> result is Ok,
            self@.prechecks_pass() && self@.blocking_enabled && blocking_settings_rejected(
                self@.blocking,
            ) ==> (result matches Err(ExecutionServicesBuildError::Blocking { .. })),
            self@.prechecks_pass() && self@.cpu_enabled && cpu_settings_rejected(self@.cpu) ==> (
            result matches Err(ExecutionServicesBuildError::Blocking { .. }) || result matches Err(
                ExecutionServicesBuildError::Cpu { .. },
            )),
            self@.prechecks_pass() && !self@.blocking_enabled && self@.cpu_enabled
                && cpu_settings_rejected(self@.cpu) ==> (result matches Err(
                ExecutionServicesBuildError::Cpu { .. },
            )),
            self@.prechecks_pass() && self@.blocking_enabled && blocking_settings_accepted(
                self@.blocking,
            ) && !self@.cpu_enabled ==> result is Ok,
            self@.prechecks_pass() && (!self@.blocking_enabled || blocking_settings_accepted(
                self@.blocking,
            )) && self@.cpu_enabled && cpu_settings_rejected(self@.cpu) ==> (result matches Err(
                ExecutionServicesBuildError::Cpu { .. },
            )),
            result matches Err(ExecutionServicesBuildError::Blocking { source }) ==> blocking_error_explained(
                self@.blocking,
                pool_build_error_kind(source),
            ),
            result matches Err(ExecutionServicesBuildError::Cpu { source }) ==> cpu_error_explained(
                self@.cpu,
                cpu_build_error_kind(source),
            ),
            result is Ok && self@.blocking_enabled ==> pool_queue_capacity(
                result->Ok_0.spec_blocking_pool()->0,
            ) == self@.blocking.queue_capacity,
            result is Ok && self@.cpu_enabled ==> cpu_task_capacity(
                result->Ok_0.spec_cpu_service()->0,
            ) == configured_cpu_task_capacity(self@.cpu),
            result is Ok && self@.cpu_enabled && self@.cpu.num_threads is Some ==> cpu_thread_count(
                result->Ok_0.spec_cpu_service()->0,
            ) == self@.cpu.num_threads->0,
            result is Ok && self@.tokio_blocking_enabled ==> tokio_blocking_capacity(
                result->Ok_0.spec_tokio_blocking_service()->0,
            ) == self@.tokio_blocking_task_capacity,
            result is Ok && self@.io_enabled ==> io_capacity(result->Ok_0.spec_io_service()->0)
                == self@.io_task_capacity,
    {
        proof {
            use_type_invariant(&self);
        }
        let any_enabled = self.blocking_enabled || self.cpu_enabled || self.tokio_blocking_enabled
            || self.io_enabled;
        if !any_enabled {
            return Err(ExecutionServicesBuildError::NoDomains);
        }
        if (self.tokio_blocking_enabled || self.io_enabled) && self.runtime.is_none() {
            return Err(ExecutionServicesBuildError::MissingTokioRuntime);
        }
        let ExecutionServicesBuilder {
            runtime,
            blocking_enabled,
            cpu_enabled,
            tokio_blocking_enabled,
            io_enabled,
            blocking,
            cpu,
            tokio_blocking_task_capacity,
            io_task_capacity,
        } = self;
        let blocking = if blocking_enabled {
            match build_blocking_pool(&blocking) {
                Ok(pool) => Some(pool),
                Err(source) => {
                    return Err(ExecutionServicesBuildError::Blocking { source });
                },
            }
        } else {
            None
        };
        let cpu = if cpu_enabled {
            match build_cpu_service(&cpu) {
                Ok(service) => Some(service),
                Err(source) => {
                    return Err(ExecutionServicesBuildError::Cpu { source });
                },
            }
        } else {
            None
        };
        let tokio_blocking = if tokio_blocking_enabled {
            match &runtime {
                Some(handle) => Some(tokio_blocking_service(handle.clone(), tokio_blocking_task_capacity)),
                None => {
                    return Err(ExecutionServicesBuildError::MissingTokioRuntime);
                },
            }
        } else {
            None
        };
        let io = if io_enabled {
            match runtime {
                Some(handle) => Some(tokio_io_service(handle, io_task_capacity)),
                None => {
                    return Err(ExecutionServicesBuildError::MissingTokioRuntime);
                },
            }
        } else {
            None
        };
        let services = ExecutionServices::from_parts(blocking, cpu, tokio_blocking, io);
        proof {
            assert forall|domain: ExecutionDomain|
                #[trigger] services.spec_has_domain(domain) == self@.enables(domain) by {
                match domain {
                    ExecutionDomain::Blocking => {},
                    ExecutionDomain::Cpu => {},
                    ExecutionDomain::TokioBlocking => {},
                    ExecutionDomain::Io => {},
                }
            }
        }
        Ok(services)
    }
}

impl Default for ExecutionServicesBuilder {
    fn default() -> (builder: Self)
        ensures
            builder@ == initial_settings(),
    {
        Self::new()
    }
}

impl Clone for ExecutionServicesBuilder {
    fn clone(&self) -> (copy: Self)
        ensures
            copy@ == self@,
    {
        proof {
            use_type_invariant(self);
        }
        ExecutionServicesBuilder {
            runtime: self.runtime.clone(),
            blocking_enabled: self.blocking_enabled,
            cpu_enabled: self.cpu_enabled,
            tokio_blocking_enabled: self.tokio_blocking_enabled,
            io_enabled: self.io_enabled,
            blocking: self.blocking.copy(),
            cpu: self.cpu.copy(),
            tokio_blocking_task_capacity: self.tokio_blocking_task_capacity,
            io_task_capacity: self.io_task_capacity,
        }
    }
}

} // verus!
