//! The worker-pool model.
//!
//! A real pool owns one thread per worker, a FIFO channel carrying opaque
//! jobs, and the channel's sending handle. Every coordination decision the
//! pool makes, however, is a function of plain state: which workers are still
//! running, which jobs are queued, whether the sending handle is still open.
//! `ThreadPool` holds exactly that state, with each job stood for by the
//! caller's numeric id, and its methods are the pool's transitions: `build`,
//! `execute`, `close`, one step of a worker's receive loop, and `teardown`.
//! A driver that owns real threads performs, for each transition, its
//! real-world counterpart: spawning, sending, receiving, joining.

use vstd::prelude::*;

verus! {

/// Why pool construction can fail: the requested worker count was invalid.
/// The payload carries the rejected count.
#[derive(Debug, PartialEq, Eq)]
pub enum PoolCreationError {
    InvalidInput(usize),
}

/// The run state of one worker: looping on the channel, or exited.
#[derive(Debug, PartialEq, Eq, Clone, Copy)]
pub enum WorkerState {
    Running,
    Stopped,
}

/// One worker: its small integer id and its run state.
#[derive(Debug, PartialEq, Eq, Clone, Copy)]
pub struct Worker {
    pub id: usize,
    pub state: WorkerState,
}

/// The pool's abstract state: worker run states indexed by id, the queued,
/// executed and submitted job ids, and whether the sending handle is open.
#[verifier::ext_equal]
pub ghost struct PoolModel {
    pub workers: Seq<WorkerState>,
    pub pending: Seq<usize>,
    pub executed: Seq<usize>,
    pub submitted: Seq<usize>,
    pub sender_open: bool,
}

/// The pool's invariant. Every job ever submitted is either already executed
/// or still queued, in order, so nothing is dropped and delivery is FIFO; the
/// pool has at least one worker; and a worker exits only once the sending
/// handle is closed and the queue is drained.
pub open spec fn pool_wf(m: PoolModel) -> bool {
    &&& m.submitted == m.executed + m.pending
    &&& m.workers.len() >= 1
    &&& forall|i: int|
        0 <= i < m.workers.len() && m.workers[i] is Stopped ==> !m.sender_open
            && m.pending.len() == 0
}

/// What `execute` does to the state: the job joins the back of the queue.
pub open spec fn submit_transition(m: PoolModel, job: usize) -> PoolModel {
    PoolModel { pending: m.pending.push(job), submitted: m.submitted.push(job), ..m }
}

/// What dropping the sending handle does to the state.
pub open spec fn close_transition(m: PoolModel) -> PoolModel {
    PoolModel { sender_open: false, ..m }
}

/// What one pass of worker `i`'s receive loop observes: a job to run, the
/// closed-and-drained channel, or an empty-but-open channel to block on.
pub open spec fn step_outcome(m: PoolModel, i: int) -> StepOutcome {
    if m.pending.len() > 0 {
        StepOutcome::Ran(m.pending[0])
    } else if !m.sender_open {
        StepOutcome::Shutdown
    } else {
        StepOutcome::Idle
    }
}

/// What one pass of worker `i`'s receive loop does to the state. A dequeue
/// moves the queue's head into the executed record and touches no worker; the
/// closed-signal stops worker `i` alone; waiting changes nothing.
pub open spec fn step_transition(m: PoolModel, i: int) -> PoolModel {
    if m.pending.len() > 0 {
        PoolModel {
            pending: m.pending.drop_first(),
            executed: m.executed.push(m.pending[0]),
            ..m
        }
    } else if !m.sender_open {
        PoolModel { workers: m.workers.update(i, WorkerState::Stopped), ..m }
    } else {
        m
    }
}

/// What one pass of a worker's receive loop yielded.
#[derive(Debug, PartialEq, Eq, Clone, Copy)]
pub enum StepOutcome {
    /// A job was dequeued and run to completion.
    Ran(usize),
    /// The channel is closed and drained; the worker exits.
    Shutdown,
    /// The channel is open but empty; the worker blocks and retries.
    Idle,
}

/// The worker pool's bookkeeping: the workers, the queued, executed and
/// submitted job ids, and whether the sending handle is still open.
pub struct ThreadPool {
    pub workers: Vec<Worker>,
    pub pending: Vec<usize>,
    pub executed: Vec<usize>,
    pub submitted: Vec<usize>,
    pub sender_open: bool,
}

impl View for ThreadPool {
    type V = PoolModel;

    open spec fn view(&self) -> PoolModel {
        PoolModel {
            workers: self.workers@.map_values(|w: Worker| w.state),
            pending: self.pending@,
            executed: self.executed@,
            submitted: self.submitted@,
            sender_open: self.sender_open,
        }
    }
}

impl ThreadPool {
    /// The pool invariant, plus each worker carrying its own index as id.
    pub open spec fn wf(self) -> bool {
        &&& pool_wf(self@)
        &&& forall|i: int| 0 <= i < self.workers@.len() ==> self.workers@[i].id == i
    }

    /// Builds a pool of `size` workers. A zero size is rejected with
    /// `InvalidInput` carrying the rejected value; any positive size yields a
    /// pool of exactly `size` running workers, an empty queue, nothing yet
    /// submitted or executed, and an open sending handle.
    pub fn build(size: usize) -> (r: Result<ThreadPool, PoolCreationError>)
        ensures
            size == 0 ==> r == Err::<ThreadPool, PoolCreationError>(
                PoolCreationError::InvalidInput(size),
            ),
            size > 0 ==> (r matches Ok(p) && p.wf() && p@.workers.len() == size && (forall|i: int|
                0 <= i < size ==> p@.workers[i] is Running) && p@.pending.len() == 0
                && p@.executed.len() == 0 && p@.submitted.len() == 0 && p@.sender_open),
    {
        if size == 0 {
            return Err(PoolCreationError::InvalidInput(size));
        }
        let mut workers: Vec<Worker> = Vec::new();
        let mut id: usize = 0;
        while id < size
            invariant
                id <= size,
                workers@.len() == id,
                forall|i: int| 0 <= i < id ==> workers@[i].id == i,
                forall|i: int| 0 <= i < id ==> workers@[i].state is Running,
            decreases size - id,
        {
            workers.push(Worker { id, state: WorkerState::Running });
            id = id + 1;
        }
        Ok(
            ThreadPool {
                workers,
                pending: Vec::new(),
                executed: Vec::new(),
                submitted: Vec::new(),
                sender_open: true,
            },
        )
    }

    /// Submits a job for asynchronous execution: fire-and-forget, the job id
    /// joins the back of the FIFO queue. The sending handle must still be
    /// open; once teardown has begun no new jobs are accepted.
    pub fn execute(&mut self, job: usize)
        requires
            old(self).wf(),
            old(self)@.sender_open,
        ensures
            final(self).wf(),
            final(self)@ == submit_transition(old(self)@, job),
    {
        self.pending.push(job);
        self.submitted.push(job);
    }

    /// Drops the sending handle: the sole, irreversible close signal that
    /// every worker will observe once the queue is drained. Nothing else
    /// changes.
    pub fn close(&mut self)
        requires
            old(self).wf(),
        ensures
            final(self).wf(),
            final(self)@ == close_transition(old(self)@),
    {
        self.sender_open = false;
    }

    /// One pass of worker `i`'s receive loop. If a job is queued, worker `i`
    /// dequeues the head and runs it to completion: no other worker's state
    /// is read or changed, so a busy worker never blocks this one. If the
    /// queue is empty and the sending handle closed, worker `i` stops. If the
    /// queue is empty but the handle open, the worker blocks: nothing
    /// changes.
    pub fn worker_step(&mut self, i: usize) -> (r: StepOutcome)
        requires
            old(self).wf(),
            i < old(self)@.workers.len(),
            old(self)@.workers[i as int] is Running,
        ensures
            final(self).wf(),
            final(self)@ == step_transition(old(self)@, i as int),
            r == step_outcome(old(self)@, i as int),
    {
        if self.pending.len() > 0 {
            let job = self.pending.remove(0);
            self.executed.push(job);
            proof {
                assert(self@.submitted =~= self@.executed + self@.pending);
            }
            assert(self@ =~= step_transition(old(self)@, i as int));
            StepOutcome::Ran(job)
        } else if !self.sender_open {
            let id = self.workers[i].id;
            self.workers[i] = Worker { id, state: WorkerState::Stopped };
            proof {
                assert(self@.workers =~= old(self)@.workers.update(
                    i as int,
                    WorkerState::Stopped,
                ));
            }
            assert(self@ =~= step_transition(old(self)@, i as int));
            StepOutcome::Shutdown
        } else {
            StepOutcome::Idle
        }
    }

    /// Joins worker `i` after the sending handle has been closed: drives its
    /// receive loop until it observes the closed-and-drained channel and
    /// stops. A worker that has already stopped is left untouched, so a
    /// second join is harmless. Either way, once this returns the queue is
    /// empty and worker `i` has stopped.
    fn join_worker(&mut self, i: usize)
        requires
            old(self).wf(),
            i < old(self)@.workers.len(),
            !old(self)@.sender_open,
        ensures
            final(self).wf(),
            final(self)@.workers.len() == old(self)@.workers.len(),
            forall|j: int|
                0 <= j < old(self)@.workers.len() && j != i ==> final(self)@.workers[j]
                    == old(self)@.workers[j],
            final(self)@.workers[i as int] is Stopped,
            final(self)@.pending.len() == 0,
            final(self)@.executed == old(self)@.executed + old(self)@.pending,
            final(self)@.submitted == old(self)@.submitted,
            !final(self)@.sender_open,
            old(self)@.workers[i as int] is Stopped ==> *final(self) == *old(self),
    {
        let ghost entry = *self;
        if matches!(self.workers[i].state, WorkerState::Stopped) {
            proof {
                assert(entry@.executed + entry@.pending =~= entry@.executed);
            }
            return ;
        }
        while self.pending.len() > 0
            invariant
                self.wf(),
                !self@.sender_open,
                i < self@.workers.len(),
                self@.workers == entry@.workers,
                self@.workers[i as int] is Running,
                self@.submitted == entry@.submitted,
                self@.executed + self@.pending == entry@.executed + entry@.pending,
            decreases self@.pending.len(),
        {
            let _ = self.worker_step(i);
            proof {
                assert(self@.executed + self@.pending =~= entry@.executed + entry@.pending);
            }
        }
        let _ = self.worker_step(i);
        proof {
            assert(self@.executed + self@.pending =~= self@.executed);
        }
    }

    /// Teardown: the ordered shutdown sequence. The sending handle is dropped
    /// first, then each worker is joined in worker-id order. This blocks
    /// until every queued and in-flight job has completed, so afterwards the
    /// queue is empty, the executed record equals everything ever submitted
    /// (in order), and every worker has stopped; no worker thread is leaked
    /// and none is joined twice.
    pub fn teardown(&mut self)
        requires
            old(self).wf(),
        ensures
            final(self).wf(),
            !final(self)@.sender_open,
            final(self)@.pending.len() == 0,
            final(self)@.executed == old(self)@.executed + old(self)@.pending,
            final(self)@.submitted == old(self)@.submitted,
            final(self)@.executed == final(self)@.submitted,
            final(self)@.workers.len() == old(self)@.workers.len(),
            forall|j: int|
                0 <= j < final(self)@.workers.len() ==> final(self)@.workers[j] is Stopped,
    {
        let ghost entry = *self;
        self.close();
        let mut i: usize = 0;
        let n = self.workers.len();
        while i < n
            invariant
                self.wf(),
                !self@.sender_open,
                n == self@.workers.len(),
                n == entry@.workers.len(),
                i <= n,
                self@.submitted == entry@.submitted,
                self@.executed + self@.pending == entry@.executed + entry@.pending,
                forall|j: int| 0 <= j < i ==> self@.workers[j] is Stopped,
                i > 0 ==> self@.pending.len() == 0,
            decreases n - i,
        {
            self.join_worker(i);
            i = i + 1;
        }
        proof {
            assert(self@.executed + self@.pending =~= self@.executed);
        }
    }
}

/// No submission is ever lost: in every well-formed state, the submitted jobs
/// are exactly the executed ones followed by the still-queued ones, so the
/// counts always balance, however many more jobs were submitted than there
/// are workers.
pub proof fn lemma_no_job_lost(m: PoolModel)
    requires
        pool_wf(m),
    ensures
        m.submitted == m.executed + m.pending,
        m.executed.len() + m.pending.len() == m.submitted.len(),
{
}

/// Jobs are executed in FIFO order: in every well-formed state, the executed
/// record is exactly the first executed-many submissions, in submission
/// order.
pub proof fn lemma_fifo_order(m: PoolModel)
    requires
        pool_wf(m),
    ensures
        m.executed == m.submitted.take(m.executed.len() as int),
{
    assert(m.executed =~= (m.executed + m.pending).take(m.executed.len() as int));
}

/// Once the queue is drained, every submitted job has been executed, exactly
/// once each and in submission order: the executed record equals the
/// submitted one, so each id occurs in it exactly as often as it was
/// submitted.
pub proof fn lemma_drained_executes_all(m: PoolModel)
    requires
        pool_wf(m),
        m.pending.len() == 0,
    ensures
        m.executed == m.submitted,
        forall|job: usize| #[trigger] m.executed.to_multiset().count(job)
            == m.submitted.to_multiset().count(job),
{
    assert(m.executed + m.pending =~= m.executed);
}

/// A busy worker never delays another. With at least two jobs queued and two
/// distinct running workers, the first worker's dequeue takes the queue's
/// head, leaves every worker's state as it was, and the second worker's
/// dequeue immediately takes the next job: nothing requires the first job to
/// have finished.
pub proof fn lemma_independent_progress(m: PoolModel, i: int, j: int)
    requires
        pool_wf(m),
        0 <= i < m.workers.len(),
        0 <= j < m.workers.len(),
        i != j,
        m.workers[i] is Running,
        m.workers[j] is Running,
        m.pending.len() >= 2,
    ensures
        step_outcome(m, i) == StepOutcome::Ran(m.pending[0]),
        step_transition(m, i).workers == m.workers,
        step_outcome(step_transition(m, i), j) == StepOutcome::Ran(m.pending[1]),
{
}

} // verus!
