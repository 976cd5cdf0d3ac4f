use workpool::pool::PollOutcome;
use workpool::pool::ThreadPool;
use workpool::worker::WorkerStatus;

#[test]
fn pool_starts_requested_workers() {
    let pool = ThreadPool::new(3);
    assert_eq!(pool.worker_count(), 3);
    assert!(pool.is_live());
    for wid in 0..3 {
        let w = pool.worker(wid);
        assert_eq!(w.id, wid);
        assert_eq!(w.status, WorkerStatus::Idle);
        assert!(!w.joined);
    }
}

#[test]
fn single_worker_pool_starts_ready() {
    let pool = ThreadPool::new(1);
    assert_eq!(pool.worker_count(), 1);
    assert_eq!(pool.worker(0).status, WorkerStatus::Idle);
}

#[test]
fn execute_keeps_submission_order() {
    let mut pool = ThreadPool::new(2);
    pool.execute(10);
    pool.execute(20);
    pool.execute(30);
    assert_eq!(pool.queued_count(), 3);
    assert_eq!(pool.submitted_log().as_slice(), &[10, 20, 30]);
    assert_eq!(pool.delivered_log().len(), 0);
}

#[test]
fn delivery_follows_submission_order() {
    let mut pool = ThreadPool::new(2);
    pool.execute(10);
    pool.execute(20);
    pool.execute(30);
    assert_eq!(pool.worker_poll(0), PollOutcome::Run(10));
    assert_eq!(pool.worker_poll(1), PollOutcome::Run(20));
    pool.complete_job(0);
    assert_eq!(pool.worker_poll(0), PollOutcome::Run(30));
    assert_eq!(pool.delivered_log().as_slice(), &[10, 20, 30]);
}

#[test]
fn four_jobs_two_workers_each_run_once() {
    let mut pool = ThreadPool::new(2);
    for index in 0..4 {
        pool.execute(index);
    }
    assert_eq!(pool.worker_poll(0), PollOutcome::Run(0));
    assert_eq!(pool.worker_poll(1), PollOutcome::Run(1));
    pool.complete_job(1);
    pool.complete_job(0);
    assert_eq!(pool.worker_poll(1), PollOutcome::Run(2));
    assert_eq!(pool.worker_poll(0), PollOutcome::Run(3));
    pool.complete_job(0);
    pool.complete_job(1);
    pool.close();
    assert_eq!(pool.worker_poll(0), PollOutcome::Exit);
    assert_eq!(pool.worker_poll(1), PollOutcome::Exit);
    pool.reap_worker(0);
    pool.reap_worker(1);
    // The sink holds every submitted index exactly once, in some order.
    let sink = pool.completed_log();
    assert_eq!(sink.len(), 4);
    for index in 0..4 {
        assert_eq!(sink.iter().filter(|&&job| job == index).count(), 1);
    }
}

#[test]
fn second_job_waits_for_single_worker() {
    let mut pool = ThreadPool::new(1);
    pool.execute(1); // the slow job
    pool.execute(2); // the job that sets the flag
    assert_eq!(pool.worker_poll(0), PollOutcome::Run(1));
    // While the only worker runs the first job, the second is not
    // delivered to anyone.
    assert!(matches!(pool.worker(0).status, WorkerStatus::Busy(1)));
    assert_eq!(pool.delivered_log().as_slice(), &[1]);
    assert_eq!(pool.queued_count(), 1);
    pool.complete_job(0);
    // Only once the first job completed can the second one start.
    assert_eq!(pool.worker_poll(0), PollOutcome::Run(2));
    assert_eq!(pool.completed_log().as_slice(), &[1]);
    assert_eq!(pool.delivered_log().as_slice(), &[1, 2]);
}

#[test]
fn two_jobs_run_in_parallel_on_two_workers() {
    let mut pool = ThreadPool::new(2);
    pool.execute(5); // both long-running
    pool.execute(6);
    assert_eq!(pool.worker_poll(0), PollOutcome::Run(5));
    assert_eq!(pool.worker_poll(1), PollOutcome::Run(6));
    // Both workers hold their jobs at the same time: execution overlaps.
    assert!(matches!(pool.worker(0).status, WorkerStatus::Busy(5)));
    assert!(matches!(pool.worker(1).status, WorkerStatus::Busy(6)));
}

#[test]
fn failed_job_leaves_other_workers_running() {
    let mut pool = ThreadPool::new(3);
    pool.execute(13);
    assert_eq!(pool.worker_poll(0), PollOutcome::Run(13));
    pool.fail_job(0);
    assert_eq!(pool.worker(0).status, WorkerStatus::Failed(13));
    // The two surviving workers keep accepting and completing new work.
    pool.execute(14);
    pool.execute(15);
    assert_eq!(pool.worker_poll(1), PollOutcome::Run(14));
    assert_eq!(pool.worker_poll(2), PollOutcome::Run(15));
    pool.complete_job(1);
    pool.complete_job(2);
    assert_eq!(pool.completed_log().as_slice(), &[14, 15]);
    assert_eq!(pool.worker(1).status, WorkerStatus::Idle);
    assert_eq!(pool.worker(2).status, WorkerStatus::Idle);
    // Teardown still works: the dead worker is reaped as failed.
    pool.close();
    assert_eq!(pool.worker_poll(1), PollOutcome::Exit);
    assert_eq!(pool.worker_poll(2), PollOutcome::Exit);
    pool.reap_worker(0);
    pool.reap_worker(1);
    pool.reap_worker(2);
    assert!(pool.worker(0).joined);
    assert_eq!(pool.worker(0).status, WorkerStatus::Failed(13));
}

#[test]
fn poll_reports_wait_on_open_empty_queue() {
    let mut pool = ThreadPool::new(1);
    assert_eq!(pool.worker_poll(0), PollOutcome::Wait);
    assert_eq!(pool.worker(0).status, WorkerStatus::Idle);
    assert!(pool.is_live());
}

#[test]
fn teardown_delivers_already_queued_jobs() {
    let mut pool = ThreadPool::new(1);
    pool.execute(21);
    pool.execute(22);
    // Closing stops new submissions, not the draining of what is queued.
    pool.close();
    assert!(!pool.is_live());
    assert_eq!(pool.worker_poll(0), PollOutcome::Run(21));
    pool.complete_job(0);
    assert_eq!(pool.worker_poll(0), PollOutcome::Run(22));
    pool.complete_job(0);
    assert_eq!(pool.worker_poll(0), PollOutcome::Exit);
    pool.reap_worker(0);
    assert_eq!(pool.delivered_log().as_slice(), &[21, 22]);
    assert_eq!(pool.completed_log().as_slice(), &[21, 22]);
    assert_eq!(pool.worker(0).status, WorkerStatus::Stopped);
    assert!(pool.worker(0).joined);
}

#[test]
fn worker_records_start_idle() {
    let w = workpool::worker::Worker::new(9);
    assert_eq!(w.id, 9);
    assert_eq!(w.status, WorkerStatus::Idle);
    assert!(!w.joined);
}
