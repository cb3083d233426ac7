use vstd::prelude::*;

verus! {

/// What the startup hook should do after probing the backend's endpoint.
#[derive(Clone, Copy, Debug, PartialEq, Eq, Structural)]
pub enum StartDecision {
    /// The endpoint answered: a backend is already serving, and none is launched.
    AlreadyRunning,
    /// The endpoint did not answer: launch the backend and hand its handle back.
    Spawn,
}

/// The decision taken for a given probe outcome.
pub open spec fn start_decision_for(reachable: bool) -> StartDecision {
    if reachable {
        StartDecision::AlreadyRunning
    } else {
        StartDecision::Spawn
    }
}

/// Decides whether a backend must be launched, from the liveness probe alone.
pub fn plan_start(reachable: bool) -> (r: StartDecision)
    ensures
        r == start_decision_for(reachable),
        reachable ==> r != StartDecision::Spawn,
{
    if reachable {
        StartDecision::AlreadyRunning
    } else {
        StartDecision::Spawn
    }
}

} // verus!

verus! {

/// The supervisor's shared cell: the handle of the backend process that this
/// supervisor launched and still owns, if any.
///
/// Holding an `Option` makes the singleton ownership structural: at most one
/// handle is ever tracked. Callers that share a supervisor between threads
/// put it behind a lock, so that calls are serialized.
pub struct Supervisor<H> {
    child: Option<H>,
}

impl<H> View for Supervisor<H> {
    type V = Option<H>;

    closed spec fn view(&self) -> Option<H> {
        self.child
    }
}

/// One shutdown from `cell`: the cell that is left, and the handle handed out
/// to be terminated.
pub open spec fn shutdown_step<H>(cell: Option<H>) -> (Option<H>, Option<H>) {
    (None, cell)
}

/// Recording a freshly launched backend in `cell`: the cell that is left, and
/// the handle it displaced.
pub open spec fn spawn_step<H>(cell: Option<H>, h: H) -> (Option<H>, Option<H>) {
    (Some(h), cell)
}

impl<H> Supervisor<H> {
    /// A supervisor that owns no process yet.
    pub fn new() -> (s: Self)
        ensures
            s@ is None,
    {
        Supervisor { child: None }
    }

    /// Whether a launched backend is currently owned.
    pub fn is_managing(&self) -> (r: bool)
        ensures
            r == self@ is Some,
    {
        self.child.is_some()
    }

    /// Takes ownership of a freshly launched backend. A handle that was held
    /// before is handed back, untouched, so that the cell never tracks two.
    pub fn record_spawned(&mut self, h: H) -> (prev: Option<H>)
        ensures
            (final(self)@, prev) == spawn_step(old(self)@, h),
    {
        let prev = self.child.take();
        self.child = Some(h);
        prev
    }

    /// Empties the cell and hands out the handle it held, which the caller
    /// must terminate. On an empty cell this does nothing and returns `None`.
    pub fn shutdown(&mut self) -> (r: Option<H>)
        ensures
            (final(self)@, r) == shutdown_step(old(self)@),
    {
        self.child.take()
    }
}

} // verus!
