//! The job queue: an ordered hand-off channel from the pool's single
//! producer handle to the workers that share its consumer side.

use vstd::prelude::*;

verus! {

/// What one call to [`JobQueue::receive`] observed.
#[derive(Clone, Copy, Debug, PartialEq, Eq, Structural)]
pub enum Received {
    /// The oldest buffered job was handed over to the caller.
    Job(u64),
    /// No job is buffered but the producer handle is still held; a
    /// blocking receiver stays suspended here until a job arrives or the
    /// queue closes.
    Empty,
    /// The producer handle is gone and the buffer has drained: the
    /// permanent end-of-stream signal that tells a worker to shut down.
    Disconnected,
}

/// An ordered hand-off channel of jobs, identified by caller-chosen
/// `u64` tags. It has one producer side, owned by the pool, and one
/// logical consumer side shared by the workers; the queue itself never
/// interprets the tags.
pub struct JobQueue {
    /// Buffered jobs, oldest first.
    pending: Vec<u64>,
    /// Whether the producer handle is still held. Relinquishing it is
    /// permanent: the queue never reopens.
    producer_live: bool,
}

impl View for JobQueue {
    type V = Seq<u64>;

    /// The buffered jobs, oldest first.
    closed spec fn view(&self) -> Seq<u64> {
        self.pending@
    }
}

impl JobQueue {
    /// Whether the producer handle is still held.
    pub closed spec fn is_live(self) -> bool {
        self.producer_live
    }

    /// Creates an empty queue whose producer handle is live.
    pub fn new() -> (q: JobQueue)
        ensures
            q@ == Seq::<u64>::empty(),
            q.is_live(),
    {
        JobQueue { pending: Vec::new(), producer_live: true }
    }

    /// Enqueues a job behind all earlier ones. Sending never blocks and
    /// never reorders: the job becomes the newest buffered entry. Only
    /// the producer side sends, so the handle must still be held.
    pub fn send(&mut self, job: u64)
        requires
            old(self).is_live(),
        ensures
            final(self)@ == old(self)@.push(job),
            final(self).is_live(),
    {
        self.pending.push(job);
    }

    /// Hands out the oldest buffered job, if there is one. Otherwise
    /// reports either that a receiver would block ([`Received::Empty`])
    /// or, once the producer handle is gone, that the queue is closed
    /// for good ([`Received::Disconnected`]).
    pub fn receive(&mut self) -> (r: Received)
        ensures
            final(self).is_live() == old(self).is_live(),
            old(self)@.len() > 0 ==> ({
                &&& r == Received::Job(old(self)@[0])
                &&& final(self)@ == old(self)@.drop_first()
            }),
            old(self)@.len() == 0 ==> final(self)@ == old(self)@,
            old(self)@.len() == 0 && old(self).is_live() ==> r == Received::Empty,
            old(self)@.len() == 0 && !old(self).is_live() ==> r == Received::Disconnected,
    {
        if self.pending.len() > 0 {
            let job = self.pending.remove(0);
            proof {
                assert(self.pending@ =~= old(self)@.drop_first());
            }
            Received::Job(job)
        } else if self.producer_live {
            Received::Empty
        } else {
            Received::Disconnected
        }
    }

    /// Relinquishes the producer handle, closing the queue permanently.
    /// Jobs already buffered stay available to [`JobQueue::receive`]:
    /// closing stops new sends, not the draining of what is in flight.
    pub fn close(&mut self)
        ensures
            final(self)@ == old(self)@,
            !final(self).is_live(),
    {
        self.producer_live = false;
    }

    /// How many jobs are buffered right now.
    pub fn len(&self) -> (n: usize)
        ensures
            n == self@.len(),
    {
        self.pending.len()
    }

    /// Whether the producer handle is still held.
    pub fn is_open(&self) -> (b: bool)
        ensures
            b == self.is_live(),
    {
        self.producer_live
    }
}

} // verus!
