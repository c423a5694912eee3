use eule::{JobQueue, QueuePoll, WorkerCleanupTask};

fn task(g: u64, c: u64) -> WorkerCleanupTask {
    WorkerCleanupTask { guild_id: g, channel_id: c }
}

#[test]
fn closed_queue_hands_out_every_job_then_drains() {
    let mut q = JobQueue::new(100);
    for i in 1..=10 {
        assert!(q.try_push(task(1, i)));
    }
    q.close();
    assert!(!q.try_push(task(1, 11)));
    let mut processed = Vec::new();
    loop {
        match q.poll() {
            QueuePoll::Job(t) => processed.push(t.channel_id),
            QueuePoll::Drained => break,
            QueuePoll::Empty => panic!("a closed queue reported empty"),
        }
    }
    assert_eq!(processed, (1..=10).collect::<Vec<u64>>());
}

#[test]
fn full_queue_drops_new_jobs() {
    let mut q = JobQueue::new(2);
    assert!(q.try_push(task(1, 1)));
    assert!(q.try_push(task(1, 2)));
    assert!(!q.try_push(task(1, 3)));
    assert_eq!(q.len(), 2);
    assert_eq!(q.poll(), QueuePoll::Job(task(1, 1)));
    assert!(q.try_push(task(1, 3)));
    assert_eq!(q.poll(), QueuePoll::Job(task(1, 2)));
    assert_eq!(q.poll(), QueuePoll::Job(task(1, 3)));
    assert_eq!(q.poll(), QueuePoll::Empty);
}
