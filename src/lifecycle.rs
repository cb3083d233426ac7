use vstd::prelude::*;

use crate::supervisor::{shutdown_step, spawn_step};

verus! {

/// The handle a shutdown hands out, as a sequence of zero or one item.
pub open spec fn handed_out<H>(out: Option<H>) -> Seq<H> {
    match out {
        Some(h) => seq![h],
        None => seq![],
    }
}

/// The handles handed out for termination by `n` shutdowns in a row,
/// starting from `cell`, in the order they were handed out.
pub open spec fn terminated_by<H>(cell: Option<H>, n: nat) -> Seq<H>
    decreases n,
{
    if n == 0 {
        seq![]
    } else {
        let (next, out) = shutdown_step(cell);
        handed_out(out) + terminated_by(next, (n - 1) as nat)
    }
}

/// The cell left by `n` shutdowns in a row, starting from `cell`.
pub open spec fn cell_after<H>(cell: Option<H>, n: nat) -> Option<H>
    decreases n,
{
    if n == 0 {
        cell
    } else {
        cell_after(shutdown_step(cell).0, (n - 1) as nat)
    }
}

/// Shutdowns on an empty cell hand out nothing and leave the cell empty,
/// however many there are.
pub proof fn lemma_shutdown_unstarted<H>(n: nat)
    ensures
        terminated_by(None::<H>, n) == Seq::<H>::empty(),
        cell_after(None::<H>, n) is None,
    decreases n,
{
    if n > 0 {
        lemma_shutdown_unstarted::<H>((n - 1) as nat);
        assert(handed_out(None::<H>) + Seq::<H>::empty() =~= Seq::<H>::empty());
    }
}

/// Shutdown is idempotent: after a fresh supervisor has recorded one launched
/// backend `h`, any run of one or more shutdowns hands `h` out for
/// termination exactly once, and leaves the cell empty. Calls from several
/// threads are serialized by the lock around the supervisor, so every
/// concurrent schedule is one of these runs.
pub proof fn lemma_shutdown_idempotent<H>(h: H, n: nat)
    requires
        n >= 1,
    ensures
        terminated_by(spawn_step(None::<H>, h).0, n) == seq![h],
        cell_after(spawn_step(None::<H>, h).0, n) is None,
{
    lemma_shutdown_unstarted::<H>((n - 1) as nat);
    assert(terminated_by(Some(h), n) == seq![h] + terminated_by(None::<H>, (n - 1) as nat));
    assert(seq![h] + Seq::<H>::empty() =~= seq![h]);
}

/// Two shutdowns racing after one launch: whichever takes the lock first
/// receives `h`, the other receives nothing, and the cell ends empty. So
/// the backend is terminated once, never twice.
pub proof fn lemma_racing_shutdowns<H>(h: H)
    ensures
        ({
            let (after_first, first) = shutdown_step(spawn_step(None::<H>, h).0);
            let (after_second, second) = shutdown_step(after_first);
            &&& first == Some(h)
            &&& second is None
            &&& after_second is None
        }),
{
}

} // verus!
