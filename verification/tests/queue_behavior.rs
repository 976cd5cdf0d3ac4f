use workpool::queue::JobQueue;
use workpool::queue::Received;

#[test]
fn queue_delivers_in_fifo_order() {
    let mut q = JobQueue::new();
    q.send(1);
    q.send(2);
    q.send(3);
    assert_eq!(q.receive(), Received::Job(1));
    assert_eq!(q.receive(), Received::Job(2));
    q.send(4);
    assert_eq!(q.receive(), Received::Job(3));
    assert_eq!(q.receive(), Received::Job(4));
}

#[test]
fn queue_reports_empty_while_producer_live() {
    let mut q = JobQueue::new();
    assert!(q.is_open());
    assert_eq!(q.receive(), Received::Empty);
    assert_eq!(q.receive(), Received::Empty);
    assert!(q.is_open());
}

#[test]
fn queue_drains_buffered_jobs_after_close() {
    let mut q = JobQueue::new();
    q.send(7);
    q.send(8);
    q.close();
    assert_eq!(q.receive(), Received::Job(7));
    assert_eq!(q.receive(), Received::Job(8));
    assert_eq!(q.receive(), Received::Disconnected);
}

#[test]
fn queue_close_is_permanent() {
    let mut q = JobQueue::new();
    q.close();
    assert!(!q.is_open());
    q.close();
    assert!(!q.is_open());
    assert_eq!(q.receive(), Received::Disconnected);
    assert_eq!(q.receive(), Received::Disconnected);
}

#[test]
fn queue_len_tracks_sends_and_receives() {
    let mut q = JobQueue::new();
    assert_eq!(q.len(), 0);
    q.send(5);
    q.send(6);
    assert_eq!(q.len(), 2);
    assert_eq!(q.receive(), Received::Job(5));
    assert_eq!(q.len(), 1);
}
