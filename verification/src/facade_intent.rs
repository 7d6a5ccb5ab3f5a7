//! Aggregate lifecycle intent recorded by the facade.
use vstd::prelude::*;

verus! {

/// Records whether the facade accepts work or has begun closing.
#[derive(Debug, Clone, Copy, PartialEq, Eq, Structural)]
pub enum FacadeIntent {
    /// The facade still accepts new work.
    Running,
    /// Graceful shutdown has been requested.
    ShuttingDown,
    /// Abrupt stop has been requested and cannot be downgraded.
    Stopping,
}

impl FacadeIntent {
    /// Position of an intent in the closing order: running, shutting down,
    /// stopping.
    pub open spec fn rank(self) -> int {
        match self {
            FacadeIntent::Running => 0,
            FacadeIntent::ShuttingDown => 1,
            FacadeIntent::Stopping => 2,
        }
    }

    /// The intent after a graceful shutdown request: only a running facade
    /// moves to shutting down; a closing facade keeps its intent.
    pub open spec fn spec_after_shutdown(self) -> FacadeIntent {
        match self {
            FacadeIntent::Running => FacadeIntent::ShuttingDown,
            _ => self,
        }
    }

    /// The intent after an abrupt stop request: always stopping.
    pub open spec fn spec_after_stop(self) -> FacadeIntent {
        FacadeIntent::Stopping
    }

    /// Whether the facade admits new submissions under this intent.
    pub open spec fn spec_accepts(self) -> bool {
        self == FacadeIntent::Running
    }

    /// Returns the intent that follows a graceful shutdown request.
    #[verifier::when_used_as_spec(spec_after_shutdown)]
    pub fn after_shutdown(self) -> (next: FacadeIntent)
        ensures
            next == self.spec_after_shutdown(),
    {
        match self {
            FacadeIntent::Running => FacadeIntent::ShuttingDown,
            _ => self,
        }
    }

    /// Returns the intent that follows an abrupt stop request.
    #[verifier::when_used_as_spec(spec_after_stop)]
    pub fn after_stop(self) -> (next: FacadeIntent)
        ensures
            next == self.spec_after_stop(),
    {
        FacadeIntent::Stopping
    }

    /// Returns whether new submissions pass facade admission.
    #[verifier::when_used_as_spec(spec_accepts)]
    pub fn accepts(self) -> (accepting: bool)
        ensures
            accepting == self.spec_accepts(),
    {
        match self {
            FacadeIntent::Running => true,
            _ => false,
        }
    }
}

/// A closing request made on the facade.
#[derive(Debug, Clone, Copy, PartialEq, Eq, Structural)]
pub enum CloseRequest {
    /// `shutdown()`: graceful shutdown.
    Shutdown,
    /// `stop()`: abrupt stop.
    Stop,
}

/// The intent reached from `start` after the closing `requests`, in order.
pub open spec fn intent_after_requests(start: FacadeIntent, requests: Seq<CloseRequest>) -> FacadeIntent
    decreases requests.len(),
{
    if requests.len() == 0 {
        start
    } else {
        let before = intent_after_requests(start, requests.drop_last());
        match requests.last() {
            CloseRequest::Shutdown => before.spec_after_shutdown(),
            CloseRequest::Stop => before.spec_after_stop(),
        }
    }
}

/// A shutdown request never downgrades the intent: it only moves a running
/// facade to shutting down, and leaves a closing facade as it is.
pub proof fn lemma_shutdown_never_downgrades(intent: FacadeIntent)
    ensures
        intent.after_shutdown().rank() >= intent.rank(),
        intent != FacadeIntent::Running ==> intent.after_shutdown() == intent,
        intent.after_shutdown() != FacadeIntent::Running,
{
}

/// A stop request always ends in the stopping intent, and a later shutdown
/// request cannot leave it.
pub proof fn lemma_stop_is_final(intent: FacadeIntent)
    ensures
        intent.after_stop() == FacadeIntent::Stopping,
        intent.after_stop().after_shutdown() == FacadeIntent::Stopping,
        intent.after_shutdown().after_stop() == FacadeIntent::Stopping,
{
}

/// Repeating a request changes nothing further.
pub proof fn lemma_requests_are_idempotent(intent: FacadeIntent)
    ensures
        intent.after_shutdown().after_shutdown() == intent.after_shutdown(),
        intent.after_stop().after_stop() == intent.after_stop(),
{
}

/// After shutdown or stop has been requested, facade admission is closed.
pub proof fn lemma_closing_closes_admission(intent: FacadeIntent)
    ensures
        !intent.after_shutdown().accepts(),
        !intent.after_stop().accepts(),
{
}

/// Whatever closing requests follow one another, the intent only moves
/// forward, admission stays closed once any request was made, and a stop
/// anywhere in the sequence leaves the facade stopping.
pub proof fn lemma_closing_is_permanent(start: FacadeIntent, requests: Seq<CloseRequest>)
    ensures
        intent_after_requests(start, requests).rank() >= start.rank(),
        requests.len() > 0 ==> !intent_after_requests(start, requests).accepts(),
        requests.contains(CloseRequest::Stop) ==> intent_after_requests(start, requests)
            == FacadeIntent::Stopping,
    decreases requests.len(),
{
    if requests.len() > 0 {
        let earlier = requests.drop_last();
        lemma_closing_is_permanent(start, earlier);
        if requests.contains(CloseRequest::Stop) && requests.last() != CloseRequest::Stop {
            let k = choose|k: int| 0 <= k < requests.len() && requests[k] == CloseRequest::Stop;
            assert(k < requests.len() - 1);
            assert(earlier[k] == CloseRequest::Stop);
            assert(earlier.contains(CloseRequest::Stop));
        }
    }
}

} // verus!
