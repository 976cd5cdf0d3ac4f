//! Workers: the thread identities that drain the job queue, and the
//! ghost accounting of which jobs they currently hold.

use vstd::multiset::Multiset;
use vstd::prelude::*;

verus! {

broadcast use vstd::multiset::group_multiset_axioms;

/// What a worker is doing right now.
#[derive(Clone, Copy, Debug, PartialEq, Eq, Structural)]
pub enum WorkerStatus {
    /// Waiting at the queue for its next job.
    Idle,
    /// Running the given job synchronously on its own thread.
    Busy(u64),
    /// Saw the queue closed and drained, and left its loop gracefully.
    Stopped,
    /// Its job failed irrecoverably: the worker's thread died with that
    /// job unfinished, and the pool runs on without it.
    Failed(u64),
}

/// One worker of the pool: a stable identity for a background thread
/// bound to the shared consumer side of the job queue.
#[derive(Clone, Copy, Debug, PartialEq, Eq, Structural)]
pub struct Worker {
    /// Small stable identifier, assigned 0, 1, ... at pool construction.
    pub id: usize,
    /// What the worker is doing right now.
    pub status: WorkerStatus,
    /// Whether the pool has already waited for this worker's thread to
    /// terminate during teardown.
    pub joined: bool,
}

impl Worker {
    /// A fresh worker, idle and ready to pull jobs.
    pub fn new(id: usize) -> (w: Worker)
        ensures
            w == (Worker { id, status: WorkerStatus::Idle, joined: false }),
    {
        Worker { id, status: WorkerStatus::Idle, joined: false }
    }

    /// Whether this worker's thread has ended, gracefully or not.
    pub open spec fn is_terminal(self) -> bool {
        self.status is Stopped || self.status is Failed
    }

    /// The jobs this worker has taken off the queue and not completed:
    /// one while it runs a job or after it died mid-job, none otherwise.
    pub open spec fn held_jobs(self) -> Multiset<u64> {
        match self.status {
            WorkerStatus::Busy(j) => Multiset::<u64>::empty().insert(j),
            WorkerStatus::Failed(j) => Multiset::<u64>::empty().insert(j),
            _ => Multiset::<u64>::empty(),
        }
    }

    /// The job this worker abandoned by dying mid-execution, if any.
    pub open spec fn abandoned_jobs(self) -> Multiset<u64> {
        match self.status {
            WorkerStatus::Failed(j) => Multiset::<u64>::empty().insert(j),
            _ => Multiset::<u64>::empty(),
        }
    }
}

/// All jobs currently held — being run, or abandoned by a dead worker —
/// across a line of workers.
pub open spec fn held_by_workers(ws: Seq<Worker>) -> Multiset<u64>
    decreases ws.len(),
{
    if ws.len() == 0 {
        Multiset::<u64>::empty()
    } else {
        held_by_workers(ws.drop_last()).add(ws.last().held_jobs())
    }
}

/// All jobs abandoned by dead workers across a line of workers.
pub open spec fn abandoned_by_workers(ws: Seq<Worker>) -> Multiset<u64>
    decreases ws.len(),
{
    if ws.len() == 0 {
        Multiset::<u64>::empty()
    } else {
        abandoned_by_workers(ws.drop_last()).add(ws.last().abandoned_jobs())
    }
}

/// Replacing one worker shifts the held total by exactly the difference
/// between the old and the new worker's held jobs.
pub proof fn lemma_held_update(ws: Seq<Worker>, i: int, w: Worker)
    requires
        0 <= i < ws.len(),
    ensures
        forall|v: u64|
            #[trigger] held_by_workers(ws.update(i, w)).count(v) + ws[i].held_jobs().count(v)
                == held_by_workers(ws).count(v) + w.held_jobs().count(v),
    decreases ws.len(),
{
    let upd = ws.update(i, w);
    lemma_held_update_total(ws, i, w);
    assert forall|v: u64|
        #[trigger] held_by_workers(upd).count(v) + ws[i].held_jobs().count(v)
            == held_by_workers(ws).count(v) + w.held_jobs().count(v) by {
        assert(held_by_workers(upd).add(ws[i].held_jobs()).count(v)
            == held_by_workers(ws).add(w.held_jobs()).count(v));
    }
}

/// Replacing one worker shifts the held total by exactly the difference
/// between the old and the new worker's held jobs, as one equation
/// between multisets.
proof fn lemma_held_update_total(ws: Seq<Worker>, i: int, w: Worker)
    requires
        0 <= i < ws.len(),
    ensures
        held_by_workers(ws.update(i, w)).add(ws[i].held_jobs())
            == held_by_workers(ws).add(w.held_jobs()),
    decreases ws.len(),
{
    let upd = ws.update(i, w);
    if i == ws.len() - 1 {
        assert(upd.drop_last() =~= ws.drop_last());
        assert(upd.last() == w);
        assert(held_by_workers(upd)
            == held_by_workers(ws.drop_last()).add(w.held_jobs()));
        assert(held_by_workers(ws)
            == held_by_workers(ws.drop_last()).add(ws.last().held_jobs()));
        assert(ws[i] == ws.last());
        assert(held_by_workers(ws.drop_last()).add(w.held_jobs()).add(ws.last().held_jobs())
            =~= held_by_workers(ws.drop_last()).add(ws.last().held_jobs()).add(w.held_jobs()));
        assert(held_by_workers(upd).add(ws[i].held_jobs())
            == held_by_workers(ws).add(w.held_jobs()));
    } else {
        lemma_held_update_total(ws.drop_last(), i, w);
        assert(upd.drop_last() =~= ws.drop_last().update(i, w));
        assert(upd.last() == ws.last());
        assert(ws.drop_last()[i] == ws[i]);
        let dlu = held_by_workers(ws.drop_last().update(i, w));
        let dl = held_by_workers(ws.drop_last());
        assert(held_by_workers(upd) == dlu.add(ws.last().held_jobs()));
        assert(held_by_workers(ws) == dl.add(ws.last().held_jobs()));
        assert(dlu.add(ws.last().held_jobs()).add(ws[i].held_jobs())
            =~= dlu.add(ws[i].held_jobs()).add(ws.last().held_jobs()));
        assert(dl.add(w.held_jobs()).add(ws.last().held_jobs())
            =~= dl.add(ws.last().held_jobs()).add(w.held_jobs()));
        assert(held_by_workers(upd).add(ws[i].held_jobs())
            == held_by_workers(ws).add(w.held_jobs()));
    }
}

/// A line of workers none of whom runs or has abandoned a job holds
/// nothing.
pub proof fn lemma_held_empty(ws: Seq<Worker>)
    requires
        forall|i: int|
            0 <= i < ws.len() ==> !((#[trigger] ws[i]).status is Busy)
                && !(ws[i].status is Failed),
    ensures
        held_by_workers(ws) == Multiset::<u64>::empty(),
    decreases ws.len(),
{
    if ws.len() > 0 {
        lemma_held_empty(ws.drop_last());
        assert(ws[ws.len() - 1] == ws.last());
        assert(held_by_workers(ws) =~= Multiset::<u64>::empty());
    }
}

/// Once no worker is busy, the jobs still held are exactly the ones
/// abandoned by dead workers.
pub proof fn lemma_held_matches_abandoned(ws: Seq<Worker>)
    requires
        forall|i: int| 0 <= i < ws.len() ==> !((#[trigger] ws[i]).status is Busy),
    ensures
        held_by_workers(ws) == abandoned_by_workers(ws),
    decreases ws.len(),
{
    if ws.len() > 0 {
        lemma_held_matches_abandoned(ws.drop_last());
        assert(ws[ws.len() - 1] == ws.last());
        assert(ws.last().held_jobs() == ws.last().abandoned_jobs());
        assert(held_by_workers(ws) =~= abandoned_by_workers(ws));
    }
}

} // verus!
