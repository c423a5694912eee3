//! The bounded job queue between the scheduler and the workers.

use vstd::prelude::*;

verus! {

/// Jobs the queue holds at most.
pub const QUEUE_CAPACITY: usize = 100;

/// A reference to the job to run: its (workspace, channel) pair only.
#[derive(Clone, Copy, Debug, PartialEq, Eq, Structural)]
pub struct WorkerCleanupTask {
    pub guild_id: u64,
    pub channel_id: u64,
}

/// What a worker gets when it asks for a job.
#[derive(Clone, Copy, Debug, PartialEq, Eq, Structural)]
pub enum QueuePoll {
    /// The oldest queued job.
    Job(WorkerCleanupTask),
    /// Nothing queued yet; wait for more.
    Empty,
    /// Closed and empty: the worker may exit.
    Drained,
}

/// The outcome of asking a queue holding `items`, closed or not, for a
/// job: what is handed out, and what stays queued.
pub open spec fn poll_model(items: Seq<WorkerCleanupTask>, closed: bool) -> (QueuePoll, Seq<WorkerCleanupTask>) {
    if items.len() > 0 {
        (QueuePoll::Job(items[0]), items.drop_first())
    } else if closed {
        (QueuePoll::Drained, items)
    } else {
        (QueuePoll::Empty, items)
    }
}

/// The jobs handed out by `k` successive polls of a queue holding `items`.
pub open spec fn handed_out(items: Seq<WorkerCleanupTask>, closed: bool, k: nat) -> Seq<QueuePoll>
    decreases k,
{
    if k == 0 {
        Seq::empty()
    } else {
        let (p, rest) = poll_model(items, closed);
        seq![p] + handed_out(rest, closed, (k - 1) as nat)
    }
}

/// Once a queue is closed, its workers still get every queued job, in the
/// order queued, and only then learn that it is drained.
pub proof fn lemma_closed_queue_drains(items: Seq<WorkerCleanupTask>)
    ensures
        handed_out(items, true, items.len() + 1) == items.map_values(|t: WorkerCleanupTask| QueuePoll::Job(t)).push(
            QueuePoll::Drained,
        ),
    decreases items.len(),
{
    if items.len() == 0 {
        assert(handed_out(items, true, 0) =~= Seq::<QueuePoll>::empty());
        assert(handed_out(items, true, 1) =~= seq![QueuePoll::Drained]);
        assert(items.map_values(|t: WorkerCleanupTask| QueuePoll::Job(t)) =~= Seq::<QueuePoll>::empty());
    } else {
        let rest = items.drop_first();
        lemma_closed_queue_drains(rest);
        assert(items.map_values(|t: WorkerCleanupTask| QueuePoll::Job(t)) =~= seq![QueuePoll::Job(items[0])]
            + rest.map_values(|t: WorkerCleanupTask| QueuePoll::Job(t)));
        assert(handed_out(items, true, items.len() + 1) =~= items.map_values(
            |t: WorkerCleanupTask| QueuePoll::Job(t),
        ).push(QueuePoll::Drained));
    }
}

/// The jobs that a queue holds, oldest first.
pub uninterp spec fn queued(q: JobQueue) -> Seq<WorkerCleanupTask>;

/// The most jobs that a queue holds.
pub uninterp spec fn queue_capacity(q: JobQueue) -> nat;

/// Whether a queue is closed to new jobs.
pub uninterp spec fn queue_closed(q: JobQueue) -> bool;

/// A bounded first-in first-out queue of jobs, kept in tokio's bounded
/// mpsc channel (both halves), which can be closed to new jobs while its
/// workers drain it. The channel's types carry an outside trait bound, so
/// the holder is opaque; its contents are named by `queued`.
#[verifier::external_body]
pub struct JobQueue {
    tx: tokio::sync::mpsc::Sender<WorkerCleanupTask>,
    rx: tokio::sync::mpsc::Receiver<WorkerCleanupTask>,
}

impl JobQueue {
    /// Relies on tokio's `mpsc::channel`, which panics on a zero capacity
    /// or one over `usize::MAX >> 3`: an open, empty channel.
    #[verifier::external_body]
    fn open_channel(capacity: usize) -> (r: JobQueue)
        requires
            1 <= capacity <= usize::MAX / 8,
        ensures
            queued(r) == Seq::<WorkerCleanupTask>::empty(),
            queue_capacity(r) == capacity,
            !queue_closed(r),
    {
        let (tx, rx) = tokio::sync::mpsc::channel(capacity);
        JobQueue { tx, rx }
    }

    /// Relies on tokio's `Sender::try_send`: the job is queued at the back
    /// unless the receiver is closed or the channel is full.
    #[verifier::external_body]
    fn channel_try_send(&mut self, task: WorkerCleanupTask) -> (r: bool)
        ensures
            r == (!queue_closed(*old(self)) && queued(*old(self)).len() < queue_capacity(*old(self))),
            r ==> queued(*final(self)) == queued(*old(self)).push(task),
            !r ==> queued(*final(self)) == queued(*old(self)),
            queue_closed(*final(self)) == queue_closed(*old(self)),
            queue_capacity(*final(self)) == queue_capacity(*old(self)),
    {
        self.tx.try_send(task).is_ok()
    }

    /// Relies on tokio's `Receiver::try_recv`: the oldest job; when there is
    /// none, `Empty` while open and `Disconnected` once closed.
    #[verifier::external_body]
    fn channel_try_recv(&mut self) -> (r: QueuePoll)
        ensures
            (r, queued(*final(self))) == poll_model(queued(*old(self)), queue_closed(*old(self))),
            queue_closed(*final(self)) == queue_closed(*old(self)),
            queue_capacity(*final(self)) == queue_capacity(*old(self)),
    {
        match self.rx.try_recv() {
            Ok(task) => QueuePoll::Job(task),
            Err(tokio::sync::mpsc::error::TryRecvError::Empty) => QueuePoll::Empty,
            Err(tokio::sync::mpsc::error::TryRecvError::Disconnected) => QueuePoll::Drained,
        }
    }

    /// Relies on tokio's `Receiver::close`: no job is admitted afterwards;
    /// the queued ones stay.
    #[verifier::external_body]
    fn channel_close(&mut self)
        ensures
            queue_closed(*final(self)),
            queued(*final(self)) == queued(*old(self)),
            queue_capacity(*final(self)) == queue_capacity(*old(self)),
    {
        self.rx.close()
    }

    /// Relies on tokio's `Receiver::len`: the number of queued jobs.
    #[verifier::external_body]
    fn channel_len(&self) -> (r: usize)
        ensures
            r == queued(*self).len(),
    {
        self.rx.len()
    }

    /// An open, empty queue of `capacity` jobs.
    pub fn new(capacity: usize) -> (r: JobQueue)
        requires
            1 <= capacity <= usize::MAX / 8,
        ensures
            queued(r).len() == 0,
            queue_capacity(r) == capacity,
            !queue_closed(r),
    {
        Self::open_channel(capacity)
    }

    /// Queues `task` unless the queue is closed or full; true iff queued.
    pub fn try_push(&mut self, task: WorkerCleanupTask) -> (r: bool)
        ensures
            r == (!queue_closed(*old(self)) && queued(*old(self)).len() < queue_capacity(*old(self))),
            r ==> queued(*final(self)) == queued(*old(self)).push(task),
            !r ==> queued(*final(self)) == queued(*old(self)),
            queue_closed(*final(self)) == queue_closed(*old(self)),
            queue_capacity(*final(self)) == queue_capacity(*old(self)),
    {
        self.channel_try_send(task)
    }

    /// Hands out the oldest job; reports `Empty` when there is none yet and
    /// `Drained` when there is none and the queue is closed.
    pub fn poll(&mut self) -> (r: QueuePoll)
        ensures
            (r, queued(*final(self))) == poll_model(queued(*old(self)), queue_closed(*old(self))),
            queue_closed(*final(self)) == queue_closed(*old(self)),
            queue_capacity(*final(self)) == queue_capacity(*old(self)),
    {
        self.channel_try_recv()
    }

    /// Closes the queue to new jobs; the queued ones stay.
    pub fn close(&mut self)
        ensures
            queue_closed(*final(self)),
            queued(*final(self)) == queued(*old(self)),
            queue_capacity(*final(self)) == queue_capacity(*old(self)),
    {
        self.channel_close()
    }

    /// The number of queued jobs.
    pub fn len(&self) -> (r: usize)
        ensures
            r == queued(*self).len(),
    {
        self.channel_len()
    }
}

} // verus!
