# qubit_execution_services

One owner for four execution domains: a managed blocking thread pool, a
Rayon pool for CPU-bound work, Tokio `spawn_blocking`, and Tokio async
tasks. The facade routes submissions to the enabled domains, closes them
together, and reports one aggregate lifecycle.

## Layout

- `src/` — the library, verified with Verus.
  - `facade_intent.rs` — the closing intent (running, shutting down,
    stopping) and the laws of shutdown and stop requests.
  - `execution_services_admission.rs` — the admission state and the
    aggregate lifecycle, with its laws.
  - `execution_services.rs` — the facade: domains, shutdown, stop, lifecycle,
    and `submit_to`, which checks admission and routes a submission.
  - `execution_services_builder.rs` — the builder and its build checks.
  - `admission_lock.rs`, `domain_services.rs` — the calls into `std::sync`
    and the executor crates, with their stated contracts.
- `app/` — the typed `submit_*` methods and `spawn_io`, the asynchronous
  `await_termination`, and error types implementing `std::error::Error`.
- `tests/` — scenarios run against the real executor crates.

## Quick start

Submit a blocking operation, a CPU calculation and an async task, observe
their results, then shut the domains down together. `submit_to` checks
admission and routes the call to the named domain; the `app/` layer wraps
these calls as `submit_blocking_callable`, `submit_cpu_callable` and
`spawn_io`. `domain_rejection` carries a domain's rejection over into the
library's `SubmissionError`. `tests/documentation_examples_tests.rs` runs
this code.

```rust
let runtime = tokio::runtime::Builder::new_current_thread()
    .enable_all()
    .build()
    .expect("runtime should build");

runtime.block_on(async {
    let services = ExecutionServices::builder()
        .runtime(runtime.handle().clone())
        .enable_blocking()
        .enable_cpu()
        .enable_io()
        .blocking_pool_size(4)
        .blocking_queue_capacity(1024)
        .cpu_threads(4)
        .cpu_task_capacity(1024)
        .build()
        .expect("quick-start facade should build");

    let blocking = services
        .submit_to(ExecutionDomain::Blocking, services.blocking(), |service| {
            service.submit_callable(|| Ok::<usize, io::Error>(40 + 2)).map_err(domain_rejection)
        })
        .expect("blocking domain should accept the callable");
    let cpu = services
        .submit_to(ExecutionDomain::Cpu, services.cpu(), |service| {
            service.submit_callable(|| Ok::<usize, io::Error>((1..=10).sum())).map_err(domain_rejection)
        })
        .expect("cpu domain should accept the callable");
    let io = services
        .submit_to(ExecutionDomain::Io, services.io(), |service| {
            service.spawn(async { Ok::<usize, io::Error>(6 * 7) }).map_err(domain_rejection)
        })
        .expect("io domain should accept the future");

    assert_eq!(blocking.await.expect("blocking result"), 42);
    assert_eq!(cpu.await.expect("cpu result"), 55);
    assert_eq!(io.await.expect("io result"), 42);

    services.shutdown();
    if let Some(service) = services.blocking() {
        service.await_termination().await;
    }
    if let Some(service) = services.cpu() {
        service.await_termination().await;
    }
    if let Some(service) = services.io() {
        service.await_termination().await;
    }
    assert!(services.is_terminated());
});
```
