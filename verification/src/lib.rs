//! A bounded worker pool, modeled and verified.
//!
//! A fixed number of long-lived workers drain a shared FIFO job queue and
//! run each job to completion, with a deterministic, leak-free teardown.
//! This crate verifies the pool's lifecycle and dispatch protocol: how a
//! job travels from submission through the queue to exactly one worker,
//! and how the pool winds down cleanly once its producer handle is
//! relinquished.
//!
//! Jobs are identified by caller-chosen `u64` tags; running a job's actual
//! code, spawning threads and blocking on a live channel are the embedding
//! program's work. The embedding program drives this model one step at a
//! time — submit, poll, complete, fail, close, reap — and the contracts
//! here pin down what each step does to the pool's state.

pub mod laws;
pub mod pool;
pub mod queue;
pub mod worker;
