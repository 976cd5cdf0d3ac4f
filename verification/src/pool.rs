//! The pool: owner of the job queue's producer handle and of the
//! workers, with the full dispatch protocol and its invariants.

use crate::queue::JobQueue;
use crate::queue::Received;
use crate::worker::held_by_workers;
use crate::worker::lemma_held_empty;
use crate::worker::lemma_held_update;
use crate::worker::Worker;
use crate::worker::WorkerStatus;
use vstd::prelude::*;

verus! {

broadcast use
    vstd::multiset::group_multiset_axioms,
    vstd::seq_lib::group_to_multiset_ensures,
;

/// What one polling step told a worker to do next.
#[derive(Clone, Copy, Debug, PartialEq, Eq, Structural)]
pub enum PollOutcome {
    /// A job was delivered: run it to completion, then report back with
    /// [`ThreadPool::complete_job`] or [`ThreadPool::fail_job`].
    Run(u64),
    /// The queue is closed and drained: leave the receive loop for good.
    Exit,
    /// Nothing to do yet, but the producer handle is still held: keep
    /// blocking at the queue and poll again when it stirs.
    Wait,
}

/// A pool of workers draining one shared FIFO job queue.
///
/// The pool keeps three append-only ledgers about the jobs it has seen:
/// every job ever submitted, in submission order; every job handed to a
/// worker, in delivery order; and every job that finished, in completion
/// order. [`ThreadPool::wf`] ties the ledgers, the queue and the workers
/// together, and every operation preserves it.
pub struct ThreadPool {
    workers: Vec<Worker>,
    queue: JobQueue,
    submitted: Vec<u64>,
    delivered: Vec<u64>,
    completed: Vec<u64>,
}

impl ThreadPool {
    /// The workers, indexed by their ids.
    pub closed spec fn workers_view(self) -> Seq<Worker> {
        self.workers@
    }

    /// The jobs sitting in the queue, oldest first.
    pub closed spec fn queued_list(self) -> Seq<u64> {
        self.queue@
    }

    /// Every job ever submitted, in submission order.
    pub closed spec fn submitted_list(self) -> Seq<u64> {
        self.submitted@
    }

    /// Every job handed to some worker, in delivery order.
    pub closed spec fn delivered_list(self) -> Seq<u64> {
        self.delivered@
    }

    /// Every job that ran to completion, in completion order.
    pub closed spec fn completed_list(self) -> Seq<u64> {
        self.completed@
    }

    /// Whether the pool still holds the queue's producer handle.
    pub closed spec fn producer_live(self) -> bool {
        self.queue.is_live()
    }

    /// Whether some worker has already shut down gracefully.
    pub open spec fn has_stopped_worker(self) -> bool {
        exists|i: int|
            0 <= i < self.workers_view().len()
                && (#[trigger] self.workers_view()[i]).status is Stopped
    }

    /// The pool's invariant.
    ///
    /// - Workers sit at the index matching their id, and their number
    ///   never changes.
    /// - The submission ledger is exactly the delivery ledger followed
    ///   by what still waits in the queue: delivery is FIFO, and no job
    ///   is lost or invented on the way.
    /// - Every delivered job is accounted for exactly once: it either
    ///   completed, or exactly one worker is running it or died with it.
    /// - A worker is joined only after its thread ended.
    /// - Workers stop gracefully only once the producer handle is gone,
    ///   and only on a drained queue — so a graceful stop means nothing
    ///   was left behind.
    pub open spec fn wf(self) -> bool {
        &&& self.workers_view().len() >= 1
        &&& forall|i: int|
            0 <= i < self.workers_view().len()
                ==> (#[trigger] self.workers_view()[i]).id == i
        &&& self.submitted_list() == self.delivered_list() + self.queued_list()
        &&& self.delivered_list().to_multiset() == self.completed_list().to_multiset().add(
            held_by_workers(self.workers_view()),
        )
        &&& forall|i: int|
            0 <= i < self.workers_view().len() && (#[trigger] self.workers_view()[i]).joined
                ==> self.workers_view()[i].is_terminal()
        &&& self.producer_live()
            ==> forall|i: int|
                0 <= i < self.workers_view().len()
                    ==> !((#[trigger] self.workers_view()[i]).status is Stopped)
        &&& forall|i: int|
            0 <= i < self.workers_view().len() && !self.producer_live()
                && (#[trigger] self.workers_view()[i]).status is Stopped
                ==> self.queued_list().len() == 0
    }

    /// Creates a pool of exactly `thread_count` workers, all idle and
    /// ready to accept work, around a fresh, open job queue.
    ///
    /// A zero-sized pool is a programming error, so the contract rules
    /// it out: the caller must check before calling.
    pub fn new(thread_count: usize) -> (pool: ThreadPool)
        requires
            thread_count > 0,
        ensures
            pool.wf(),
            pool.workers_view().len() == thread_count,
            forall|i: int|
                0 <= i < thread_count ==> (#[trigger] pool.workers_view()[i]) == (Worker {
                    id: i as usize,
                    status: WorkerStatus::Idle,
                    joined: false,
                }),
            pool.producer_live(),
            pool.submitted_list().len() == 0,
            pool.delivered_list().len() == 0,
            pool.completed_list().len() == 0,
            pool.queued_list().len() == 0,
    {
        let queue = JobQueue::new();
        let mut workers: Vec<Worker> = Vec::new();
        let mut id: usize = 0;
        while id < thread_count
            invariant
                id <= thread_count,
                workers@.len() == id,
                forall|i: int|
                    0 <= i < id ==> (#[trigger] workers@[i]) == (Worker {
                        id: i as usize,
                        status: WorkerStatus::Idle,
                        joined: false,
                    }),
            decreases thread_count - id,
        {
            workers.push(Worker::new(id));
            id += 1;
        }
        let pool = ThreadPool {
            workers,
            queue,
            submitted: Vec::new(),
            delivered: Vec::new(),
            completed: Vec::new(),
        };
        proof {
            lemma_held_empty(pool.workers_view());
            assert(pool.delivered_list().to_multiset()
                =~= pool.completed_list().to_multiset().add(
                held_by_workers(pool.workers_view()),
            ));
            assert(pool.submitted_list() =~= pool.delivered_list() + pool.queued_list());
        }
        pool
    }

    /// Submits a job: appends it to the queue behind every earlier one
    /// and records it in the submission ledger. Never blocks on the
    /// job's execution.
    ///
    /// Submitting after the producer handle was relinquished is a
    /// use-after-teardown programming error, so the contract rules it
    /// out: the caller must check before calling.
    pub fn execute(&mut self, job: u64)
        requires
            old(self).wf(),
            old(self).producer_live(),
        ensures
            final(self).wf(),
            final(self).submitted_list() == old(self).submitted_list().push(job),
            final(self).queued_list() == old(self).queued_list().push(job),
            final(self).delivered_list() == old(self).delivered_list(),
            final(self).completed_list() == old(self).completed_list(),
            final(self).workers_view() == old(self).workers_view(),
            final(self).producer_live(),
    {
        self.queue.send(job);
        self.submitted.push(job);
        proof {
            assert(self.submitted@ =~= self.delivered@ + self.queue@);
        }
    }

    /// One step of an idle worker's receive loop: take the oldest queued
    /// job if there is one, observe the closed and drained queue and
    /// stop, or find nothing to do yet and keep waiting.
    ///
    /// Every other worker is left exactly as it was — in particular, a
    /// worker still running its job keeps running it, which is what lets
    /// several jobs be in flight at once.
    pub fn worker_poll(&mut self, wid: usize) -> (r: PollOutcome)
        requires
            old(self).wf(),
            wid < old(self).workers_view().len(),
            old(self).workers_view()[wid as int].status is Idle,
        ensures
            final(self).wf(),
            final(self).workers_view().len() == old(self).workers_view().len(),
            forall|i: int|
                0 <= i < old(self).workers_view().len() && i != wid
                    ==> final(self).workers_view()[i] == old(self).workers_view()[i],
            final(self).submitted_list() == old(self).submitted_list(),
            final(self).completed_list() == old(self).completed_list(),
            final(self).producer_live() == old(self).producer_live(),
            old(self).queued_list().len() > 0 ==> ({
                &&& r == PollOutcome::Run(old(self).queued_list()[0])
                &&& final(self).queued_list() == old(self).queued_list().drop_first()
                &&& final(self).delivered_list() == old(self).delivered_list().push(
                    old(self).queued_list()[0],
                )
                &&& final(self).workers_view()[wid as int] == (Worker {
                    id: wid,
                    status: WorkerStatus::Busy(old(self).queued_list()[0]),
                    joined: false,
                })
            }),
            old(self).queued_list().len() == 0 ==> ({
                &&& final(self).queued_list() == old(self).queued_list()
                &&& final(self).delivered_list() == old(self).delivered_list()
            }),
            old(self).queued_list().len() == 0 && old(self).producer_live() ==> ({
                &&& r == PollOutcome::Wait
                &&& final(self).workers_view() == old(self).workers_view()
            }),
            old(self).queued_list().len() == 0 && !old(self).producer_live() ==> ({
                &&& r == PollOutcome::Exit
                &&& final(self).workers_view()[wid as int] == (Worker {
                    id: wid,
                    status: WorkerStatus::Stopped,
                    joined: false,
                })
            }),
    {
        let ghost prior = *self;
        let msg = self.queue.receive();
        match msg {
            Received::Job(job) => {
                let w = self.workers[wid];
                self.workers.set(
                    wid,
                    Worker { id: w.id, status: WorkerStatus::Busy(job), joined: w.joined },
                );
                self.delivered.push(job);
                proof {
                    lemma_held_update(
                        prior.workers_view(),
                        wid as int,
                        self.workers@[wid as int],
                    );
                    assert(self.delivered@.to_multiset()
                        =~= prior.delivered_list().to_multiset().insert(job));
                    assert(self.delivered@.to_multiset() =~= self.completed@.to_multiset().add(
                        held_by_workers(self.workers@),
                    ));
                    assert(self.submitted@ =~= self.delivered@ + self.queue@);
                }
                PollOutcome::Run(job)
            },
            Received::Empty => PollOutcome::Wait,
            Received::Disconnected => {
                let w = self.workers[wid];
                self.workers.set(
                    wid,
                    Worker { id: w.id, status: WorkerStatus::Stopped, joined: w.joined },
                );
                proof {
                    lemma_held_update(
                        prior.workers_view(),
                        wid as int,
                        self.workers@[wid as int],
                    );
                    assert(self.delivered@.to_multiset() =~= self.completed@.to_multiset().add(
                        held_by_workers(self.workers@),
                    ));
                }
                PollOutcome::Exit
            },
        }
    }

    /// Records that a worker ran its job to completion: the job enters
    /// the completion ledger and the worker goes back to waiting at the
    /// queue.
    pub fn complete_job(&mut self, wid: usize)
        requires
            old(self).wf(),
            wid < old(self).workers_view().len(),
            old(self).workers_view()[wid as int].status is Busy,
        ensures
            final(self).wf(),
            final(self).workers_view().len() == old(self).workers_view().len(),
            forall|i: int|
                0 <= i < old(self).workers_view().len() && i != wid
                    ==> final(self).workers_view()[i] == old(self).workers_view()[i],
            old(self).workers_view()[wid as int].status matches WorkerStatus::Busy(job)
                ==> final(self).completed_list() == old(self).completed_list().push(job),
            final(self).workers_view()[wid as int] == (Worker {
                id: wid,
                status: WorkerStatus::Idle,
                joined: false,
            }),
            final(self).submitted_list() == old(self).submitted_list(),
            final(self).delivered_list() == old(self).delivered_list(),
            final(self).queued_list() == old(self).queued_list(),
            final(self).producer_live() == old(self).producer_live(),
    {
        let ghost prior = *self;
        let w = self.workers[wid];
        match w.status {
            WorkerStatus::Busy(job) => {
                self.completed.push(job);
                self.workers.set(
                    wid,
                    Worker { id: w.id, status: WorkerStatus::Idle, joined: w.joined },
                );
                proof {
                    lemma_held_update(
                        prior.workers_view(),
                        wid as int,
                        self.workers@[wid as int],
                    );
                    assert(self.delivered@.to_multiset() =~= self.completed@.to_multiset().add(
                        held_by_workers(self.workers@),
                    ));
                }
            },
            _ => {
                assert(false);
            },
        }
    }

    /// Records that a worker's job failed irrecoverably, taking the
    /// worker's thread down with it. The job is never retried and never
    /// completes; the pool runs on with one worker fewer.
    pub fn fail_job(&mut self, wid: usize)
        requires
            old(self).wf(),
            wid < old(self).workers_view().len(),
            old(self).workers_view()[wid as int].status is Busy,
        ensures
            final(self).wf(),
            final(self).workers_view().len() == old(self).workers_view().len(),
            forall|i: int|
                0 <= i < old(self).workers_view().len() && i != wid
                    ==> final(self).workers_view()[i] == old(self).workers_view()[i],
            old(self).workers_view()[wid as int].status matches WorkerStatus::Busy(job)
                ==> final(self).workers_view()[wid as int] == (Worker {
                    id: wid,
                    status: WorkerStatus::Failed(job),
                    joined: false,
                }),
            final(self).submitted_list() == old(self).submitted_list(),
            final(self).delivered_list() == old(self).delivered_list(),
            final(self).completed_list() == old(self).completed_list(),
            final(self).queued_list() == old(self).queued_list(),
            final(self).producer_live() == old(self).producer_live(),
    {
        let ghost prior = *self;
        let w = self.workers[wid];
        match w.status {
            WorkerStatus::Busy(job) => {
                self.workers.set(
                    wid,
                    Worker { id: w.id, status: WorkerStatus::Failed(job), joined: w.joined },
                );
                proof {
                    lemma_held_update(
                        prior.workers_view(),
                        wid as int,
                        self.workers@[wid as int],
                    );
                    assert(self.delivered@.to_multiset() =~= self.completed@.to_multiset().add(
                        held_by_workers(self.workers@),
                    ));
                }
            },
            _ => {
                assert(false);
            },
        }
    }

    /// The first step of teardown: relinquishes the producer handle,
    /// closing the queue permanently. Jobs already queued still get
    /// delivered and run; only new submissions become impossible.
    /// Closing an already-closed queue changes nothing.
    pub fn close(&mut self)
        requires
            old(self).wf(),
        ensures
            final(self).wf(),
            !final(self).producer_live(),
            final(self).workers_view() == old(self).workers_view(),
            final(self).submitted_list() == old(self).submitted_list(),
            final(self).delivered_list() == old(self).delivered_list(),
            final(self).completed_list() == old(self).completed_list(),
            final(self).queued_list() == old(self).queued_list(),
    {
        self.queue.close();
    }

    /// The second step of teardown, once per worker: records that the
    /// pool has waited for this worker's thread. A thread can only be
    /// waited for once it has ended, so the worker must already be
    /// stopped or failed — this is what makes teardown block until every
    /// worker is done.
    pub fn reap_worker(&mut self, wid: usize)
        requires
            old(self).wf(),
            wid < old(self).workers_view().len(),
            old(self).workers_view()[wid as int].is_terminal(),
        ensures
            final(self).wf(),
            final(self).workers_view().len() == old(self).workers_view().len(),
            forall|i: int|
                0 <= i < old(self).workers_view().len() && i != wid
                    ==> final(self).workers_view()[i] == old(self).workers_view()[i],
            final(self).workers_view()[wid as int] == (Worker {
                id: wid,
                status: old(self).workers_view()[wid as int].status,
                joined: true,
            }),
            final(self).submitted_list() == old(self).submitted_list(),
            final(self).delivered_list() == old(self).delivered_list(),
            final(self).completed_list() == old(self).completed_list(),
            final(self).queued_list() == old(self).queued_list(),
            final(self).producer_live() == old(self).producer_live(),
    {
        let ghost prior = *self;
        let w = self.workers[wid];
        self.workers.set(wid, Worker { id: w.id, status: w.status, joined: true });
        proof {
            lemma_held_update(prior.workers_view(), wid as int, self.workers@[wid as int]);
            assert(self.delivered@.to_multiset() =~= self.completed@.to_multiset().add(
                held_by_workers(self.workers@),
            ));
        }
    }

    /// How many workers the pool was built with.
    pub fn worker_count(&self) -> (n: usize)
        ensures
            n == self.workers_view().len(),
    {
        self.workers.len()
    }

    /// A copy of one worker's current record.
    pub fn worker(&self, wid: usize) -> (w: Worker)
        requires
            wid < self.workers_view().len(),
        ensures
            w == self.workers_view()[wid as int],
    {
        self.workers[wid]
    }

    /// How many jobs wait in the queue right now.
    pub fn queued_count(&self) -> (n: usize)
        ensures
            n == self.queued_list().len(),
    {
        self.queue.len()
    }

    /// Whether the pool still holds the queue's producer handle.
    pub fn is_live(&self) -> (b: bool)
        ensures
            b == self.producer_live(),
    {
        self.queue.is_open()
    }

    /// The submission ledger: every job ever submitted, in order.
    pub fn submitted_log(&self) -> (log: &Vec<u64>)
        ensures
            log@ == self.submitted_list(),
    {
        &self.submitted
    }

    /// The delivery ledger: every job handed to a worker, in order.
    pub fn delivered_log(&self) -> (log: &Vec<u64>)
        ensures
            log@ == self.delivered_list(),
    {
        &self.delivered
    }

    /// The completion ledger: every job that finished, in order.
    pub fn completed_log(&self) -> (log: &Vec<u64>)
        ensures
            log@ == self.completed_list(),
    {
        &self.completed
    }
}

} // verus!
