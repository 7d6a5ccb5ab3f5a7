//! Submission admission and aggregate lifecycle intent for the facade.
use vstd::prelude::*;

use crate::facade_intent::FacadeIntent;
use crate::service_lifecycle::ServiceLifecycle;
use crate::submission_error::SubmissionError;

verus! {

/// Whether every enabled domain (a `Some` entry) has terminated.
pub open spec fn all_enabled_terminated(states: Seq<Option<ServiceLifecycle>>) -> bool {
    forall|i: int|
        0 <= i < states.len() && (#[trigger] states[i]) is Some
            ==> states[i]->0 == ServiceLifecycle::Terminated
}

/// Whether some enabled domain is stopping.
pub open spec fn any_enabled_stopping(states: Seq<Option<ServiceLifecycle>>) -> bool {
    exists|i: int| 0 <= i < states.len() && #[trigger] states[i] == Some(ServiceLifecycle::Stopping)
}

/// Whether some enabled domain has left the running state.
pub open spec fn any_enabled_not_running(states: Seq<Option<ServiceLifecycle>>) -> bool {
    exists|i: int|
        0 <= i < states.len() && (#[trigger] states[i]) is Some && states[i]->0
            != ServiceLifecycle::Running
}

/// The facade's lifecycle for an aggregate intent and the latest state of
/// each domain (`None` for a disabled domain).
///
/// Termination takes precedence once every enabled domain has terminated.
/// Before then an explicit stop or shutdown intent stays visible; while the
/// facade is still admitting work, a stopping domain outranks any domain that
/// is only shutting down or terminated.
pub open spec fn aggregate_lifecycle_spec(
    intent: FacadeIntent,
    states: Seq<Option<ServiceLifecycle>>,
) -> ServiceLifecycle {
    if all_enabled_terminated(states) {
        ServiceLifecycle::Terminated
    } else {
        match intent {
            FacadeIntent::Stopping => ServiceLifecycle::Stopping,
            FacadeIntent::ShuttingDown => ServiceLifecycle::ShuttingDown,
            FacadeIntent::Running => if any_enabled_stopping(states) {
                ServiceLifecycle::Stopping
            } else if any_enabled_not_running(states) {
                ServiceLifecycle::ShuttingDown
            } else {
                ServiceLifecycle::Running
            },
        }
    }
}

/// Combines aggregate shutdown intent with the latest state of each domain.
pub fn aggregate_lifecycle(
    intent: FacadeIntent,
    states: [Option<ServiceLifecycle>; 4],
) -> (lifecycle: ServiceLifecycle)
    ensures
        lifecycle == aggregate_lifecycle_spec(intent, states@),
{
    let mut all_terminated = true;
    let mut any_stopping = false;
    let mut any_not_running = false;
    let mut i: usize = 0;
    while i < 4
        invariant
            0 <= i <= 4,
            states@.len() == 4,
            all_terminated == all_enabled_terminated(states@.take(i as int)),
            any_stopping == any_enabled_stopping(states@.take(i as int)),
            any_not_running == any_enabled_not_running(states@.take(i as int)),
        decreases 4 - i,
    {
        let state = states[i];
        proof {
            let prefix = states@.take(i as int);
            let next = states@.take(i + 1);
            assert(next =~= prefix.push(state));
            assert(next[i as int] == state);
            assert(forall|j: int| 0 <= j < i ==> next[j] == prefix[j]);
        }
        match state {
            Some(ServiceLifecycle::Terminated) => {},
            Some(_) => {
                all_terminated = false;
            },
            None => {},
        }
        match state {
            Some(ServiceLifecycle::Stopping) => {
                any_stopping = true;
            },
            _ => {},
        }
        match state {
            Some(ServiceLifecycle::Running) => {},
            Some(_) => {
                any_not_running = true;
            },
            None => {},
        }
        i = i + 1;
    }
    assert(states@.take(4) =~= states@);
    if all_terminated {
        return ServiceLifecycle::Terminated;
    }
    match intent {
        FacadeIntent::Stopping => ServiceLifecycle::Stopping,
        FacadeIntent::ShuttingDown => ServiceLifecycle::ShuttingDown,
        FacadeIntent::Running => if any_stopping {
            ServiceLifecycle::Stopping
        } else if any_not_running {
            ServiceLifecycle::ShuttingDown
        } else {
            ServiceLifecycle::Running
        },
    }
}

/// Tracks facade admission intent and aggregate shutdown requests.
pub struct ExecutionServicesAdmission {
    /// Current aggregate intent.
    intent: FacadeIntent,
}

impl View for ExecutionServicesAdmission {
    type V = FacadeIntent;

    closed spec fn view(&self) -> FacadeIntent {
        self.intent
    }
}

impl ExecutionServicesAdmission {
    /// Creates an admission state that admits submissions.
    pub fn new() -> (admission: Self)
        ensures
            admission@ == FacadeIntent::Running,
    {
        ExecutionServicesAdmission { intent: FacadeIntent::Running }
    }

    /// Checks facade admission, then calls `submit`.
    ///
    /// A closing facade answers with the `Shutdown` rejection converted into the
    /// caller's error type and never calls `submit`.
    pub fn submit_if_admitted<R, E, F>(&self, submit: F) -> (result: Result<R, E>)
        where
            E: From<SubmissionError>,
            F: FnOnce() -> Result<R, E>,
        requires
            self@.accepts() ==> call_requires(submit, ()),
        ensures
            self@.accepts() ==> call_ensures(submit, (), result),
            !self@.accepts() ==> result is Err,
            !self@.accepts() && <E as vstd::std_specs::convert::FromSpec<SubmissionError>>::obeys_from_spec()
                ==> result == Err::<R, E>(
                <E as vstd::std_specs::convert::FromSpec<SubmissionError>>::from_spec(
                    SubmissionError::Shutdown,
                ),
            ),
    {
        if !self.intent.accepts() {
            return Err(E::from(SubmissionError::Shutdown));
        }
        submit()
    }

    /// Returns whether new submissions currently pass admission.
    pub fn accepts_submissions(&self) -> (accepting: bool)
        ensures
            accepting == self@.accepts(),
    {
        self.intent.accepts()
    }

    /// Requests graceful shutdown without downgrading an existing stop.
    pub fn request_shutdown(&mut self)
        ensures
            final(self)@ == old(self)@.after_shutdown(),
    {
        self.intent = self.intent.after_shutdown();
    }

    /// Records an abrupt stop request, upgrading any graceful shutdown intent.
    pub fn request_stop(&mut self)
        ensures
            final(self)@ == FacadeIntent::Stopping,
    {
        self.intent = self.intent.after_stop();
    }

    /// Returns the current aggregate shutdown intent.
    pub fn intent(&self) -> (intent: FacadeIntent)
        ensures
            intent == self@,
    {
        self.intent
    }

    /// Returns the aggregate lifecycle for the current intent and domain
    /// states.
    pub fn lifecycle(&self, states: [Option<ServiceLifecycle>; 4]) -> (lifecycle: ServiceLifecycle)
        ensures
            lifecycle == aggregate_lifecycle_spec(self@, states@),
    {
        aggregate_lifecycle(self.intent, states)
    }
}

/// The facade reports `Terminated` exactly when every enabled domain has
/// terminated, whatever the recorded intent.
pub proof fn lemma_terminated_exactly_when_domains_terminated(
    intent: FacadeIntent,
    states: Seq<Option<ServiceLifecycle>>,
)
    ensures
        (aggregate_lifecycle_spec(intent, states) == ServiceLifecycle::Terminated)
            <==> all_enabled_terminated(states),
{
}

/// Until every enabled domain has terminated, a recorded stop is reported as
/// `Stopping` and a recorded shutdown as `ShuttingDown`, whatever the
/// domains report.
pub proof fn lemma_recorded_intent_stays_visible(
    intent: FacadeIntent,
    states: Seq<Option<ServiceLifecycle>>,
)
    requires
        !all_enabled_terminated(states),
    ensures
        intent == FacadeIntent::Stopping ==> aggregate_lifecycle_spec(intent, states)
            == ServiceLifecycle::Stopping,
        intent == FacadeIntent::ShuttingDown ==> aggregate_lifecycle_spec(intent, states)
            == ServiceLifecycle::ShuttingDown,
{
}

/// While admission is open, a domain stopped on its own outranks graceful
/// shutdown: the facade reports `Stopping` until everything has terminated.
pub proof fn lemma_stopping_domain_outranks_shutdown(
    states: Seq<Option<ServiceLifecycle>>,
)
    requires
        any_enabled_stopping(states),
    ensures
        aggregate_lifecycle_spec(FacadeIntent::Running, states) == ServiceLifecycle::Stopping,
{
    let i = choose|i: int| 0 <= i < states.len() && #[trigger] states[i] == Some(ServiceLifecycle::Stopping);
    assert(states[i] is Some && states[i]->0 != ServiceLifecycle::Terminated);
}

/// The facade reports `Running` exactly when admission is open, some domain
/// is enabled, and every enabled domain is running.
pub proof fn lemma_running_exactly_when_everything_runs(
    intent: FacadeIntent,
    states: Seq<Option<ServiceLifecycle>>,
)
    ensures
        (aggregate_lifecycle_spec(intent, states) == ServiceLifecycle::Running) <==> (intent
            == FacadeIntent::Running && (exists|i: int| 0 <= i < states.len() && (#[trigger] states[i]) is Some)
            && (forall|i: int|
            0 <= i < states.len() && (#[trigger] states[i]) is Some ==> states[i]->0
                == ServiceLifecycle::Running)),
{
    let running = aggregate_lifecycle_spec(intent, states) == ServiceLifecycle::Running;
    let some_enabled = exists|i: int| 0 <= i < states.len() && (#[trigger] states[i]) is Some;
    let all_running = forall|i: int|
        0 <= i < states.len() && (#[trigger] states[i]) is Some ==> states[i]->0 == ServiceLifecycle::Running;
    if running {
        assert(!all_enabled_terminated(states));
        let k = choose|k: int|
            !(0 <= k < states.len() && (#[trigger] states[k]) is Some ==> states[k]->0 == ServiceLifecycle::Terminated);
        assert(0 <= k < states.len() && states[k] is Some);
        assert(some_enabled);
        assert(all_running) by {
            assert forall|i: int|
                0 <= i < states.len() && (#[trigger] states[i]) is Some implies states[i]->0
                    == ServiceLifecycle::Running by {
                if states[i]->0 != ServiceLifecycle::Running {
                    assert(any_enabled_not_running(states));
                }
            }
        }
    }
    if intent == FacadeIntent::Running && some_enabled && all_running {
        let k = choose|k: int| 0 <= k < states.len() && (#[trigger] states[k]) is Some;
        assert(states[k]->0 == ServiceLifecycle::Running);
        assert(!all_enabled_terminated(states));
        assert(!any_enabled_stopping(states));
        assert(!any_enabled_not_running(states));
    }
}

/// Once shutdown or stop has been requested, the facade never reports
/// `Running` again; after a stop it reports only `Stopping` or `Terminated`.
pub proof fn lemma_closed_facade_never_reports_running(
    intent: FacadeIntent,
    states: Seq<Option<ServiceLifecycle>>,
)
    ensures
        aggregate_lifecycle_spec(intent.after_shutdown(), states) != ServiceLifecycle::Running,
        aggregate_lifecycle_spec(intent.after_stop(), states) == ServiceLifecycle::Stopping
            || aggregate_lifecycle_spec(intent.after_stop(), states) == ServiceLifecycle::Terminated,
{
}

/// The aggregate does not depend on which domain reports which state: any
/// reordering of the domain states (the same states, counted with their
/// multiplicity) gives the same lifecycle.
pub proof fn lemma_aggregate_ignores_domain_order(
    intent: FacadeIntent,
    states: Seq<Option<ServiceLifecycle>>,
    reordered: Seq<Option<ServiceLifecycle>>,
)
    requires
        states.to_multiset() =~= reordered.to_multiset(),
    ensures
        aggregate_lifecycle_spec(intent, states) == aggregate_lifecycle_spec(intent, reordered),
{
    broadcast use vstd::seq_lib::group_to_multiset_ensures;

    assert forall|x: Option<ServiceLifecycle>| states.contains(x) <==> reordered.contains(x) by {
        assert(states.to_multiset().count(x) == reordered.to_multiset().count(x));
    }
    lemma_predicates_follow_contents(states, reordered);
    lemma_predicates_follow_contents(reordered, states);
}

/// The three predicates of the aggregate read only which states occur.
proof fn lemma_predicates_follow_contents(
    states: Seq<Option<ServiceLifecycle>>,
    other: Seq<Option<ServiceLifecycle>>,
)
    requires
        forall|x: Option<ServiceLifecycle>| states.contains(x) ==> other.contains(x),
    ensures
        all_enabled_terminated(other) ==> all_enabled_terminated(states),
        any_enabled_stopping(states) ==> any_enabled_stopping(other),
        any_enabled_not_running(states) ==> any_enabled_not_running(other),
{
    if all_enabled_terminated(other) {
        assert forall|i: int|
            0 <= i < states.len() && (#[trigger] states[i]) is Some implies states[i]->0
                == ServiceLifecycle::Terminated by {
            assert(states.contains(states[i]));
            let j = choose|j: int| 0 <= j < other.len() && other[j] == states[i];
            assert(other[j] is Some);
        }
    }
    if any_enabled_stopping(states) {
        let i = choose|i: int| 0 <= i < states.len() && #[trigger] states[i] == Some(ServiceLifecycle::Stopping);
        assert(states.contains(states[i]));
        let j = choose|j: int| 0 <= j < other.len() && other[j] == states[i];
        assert(other[j] == Some(ServiceLifecycle::Stopping));
    }
    if any_enabled_not_running(states) {
        let i = choose|i: int|
            0 <= i < states.len() && (#[trigger] states[i]) is Some && states[i]->0 != ServiceLifecycle::Running;
        assert(states.contains(states[i]));
        let j = choose|j: int| 0 <= j < other.len() && other[j] == states[i];
        assert(other[j] is Some && other[j]->0 != ServiceLifecycle::Running);
    }
}

} // verus!
