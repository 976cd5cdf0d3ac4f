//! The pool's guarantees, stated and proved as laws over any pool state
//! that satisfies the invariant [`crate::pool::ThreadPool::wf`].

use crate::pool::ThreadPool;
use crate::worker::abandoned_by_workers;
use crate::worker::lemma_held_empty;
use crate::worker::lemma_held_matches_abandoned;
use vstd::prelude::*;

verus! {

broadcast use vstd::multiset::group_multiset_axioms;

/// Delivery order is submission order. The delivery ledger is always
/// exactly the front of the submission ledger: whenever a job has been
/// handed to some worker, every job submitted before it has been handed
/// out too, and in the same order. Finish order stays unconstrained.
pub proof fn delivery_is_fifo(p: ThreadPool)
    requires
        p.wf(),
    ensures
        p.delivered_list().len() <= p.submitted_list().len(),
        p.delivered_list() == p.submitted_list().take(p.delivered_list().len() as int),
        forall|i: int|
            0 <= i < p.delivered_list().len()
                ==> #[trigger] p.delivered_list()[i] == p.submitted_list()[i],
{
    assert(p.submitted_list().take(p.delivered_list().len() as int) =~= p.delivered_list());
}

/// Every submitted job runs exactly once. Once the queue has drained
/// and every worker is done — none still running a job, none dead with
/// a job — the delivery ledger is the submission ledger itself, and the
/// completion ledger is a permutation of it: no job was lost, none ran
/// twice.
pub proof fn jobs_run_exactly_once(p: ThreadPool)
    requires
        p.wf(),
        p.queued_list().len() == 0,
        forall|i: int|
            0 <= i < p.workers_view().len()
                ==> !((#[trigger] p.workers_view()[i]).status is Busy)
                    && !(p.workers_view()[i].status is Failed),
    ensures
        p.delivered_list() == p.submitted_list(),
        p.completed_list().to_multiset() == p.submitted_list().to_multiset(),
{
    assert(p.submitted_list() =~= p.delivered_list());
    lemma_held_empty(p.workers_view());
    assert(p.completed_list().to_multiset() =~= p.submitted_list().to_multiset());
}

/// Teardown is complete. Once the producer handle is relinquished and
/// the pool has waited for every worker, no job is still running: each
/// delivered job either completed or was abandoned by the one worker
/// that died holding it. And if any worker shut down gracefully, the
/// queue drained first, so every submitted job was delivered.
pub proof fn teardown_is_complete(p: ThreadPool)
    requires
        p.wf(),
        !p.producer_live(),
        forall|i: int|
            0 <= i < p.workers_view().len() ==> (#[trigger] p.workers_view()[i]).joined,
    ensures
        forall|i: int|
            0 <= i < p.workers_view().len()
                ==> (#[trigger] p.workers_view()[i]).is_terminal(),
        p.delivered_list().to_multiset() == p.completed_list().to_multiset().add(
            abandoned_by_workers(p.workers_view()),
        ),
        p.has_stopped_worker() ==> p.delivered_list() == p.submitted_list(),
{
    lemma_held_matches_abandoned(p.workers_view());
    if p.has_stopped_worker() {
        assert(p.queued_list().len() == 0);
        assert(p.submitted_list() =~= p.delivered_list());
    }
}

} // verus!
