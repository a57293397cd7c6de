//! The thread pool core: a fixed set of workers competing for job tickets
//! on a shared work channel, with ordered, leak-free teardown.
//!
//! A job is identified by the ticket the pool assigns at submission; the
//! caller keeps the job's body and runs it when a worker's step delivers
//! the ticket. The pool records every delivered ticket in its completion
//! history, so the contracts can state that accepted work is neither lost
//! nor run twice. Shutdown closes the channel, lets the workers drain what
//! is still pending, and joins each worker in creation order; pending work
//! is therefore run, not abandoned, during teardown.

use vstd::prelude::*;

use crate::channel::{ChannelModel, PopResult, SendError, WorkChannel};

verus! {

/// Lifecycle state of one worker: looping over pop-execute, or exited
/// after observing the closed channel.
#[derive(Clone, Copy, PartialEq, Eq, Structural, Debug)]
pub enum WorkerState {
    Running,
    Terminated,
}

/// Construction failure: a pool must have at least one worker.
#[derive(Clone, Copy, PartialEq, Eq, Structural, Debug)]
pub enum PoolError {
    ZeroWorkers,
}

/// What one worker step did: ran the job named by the ticket, or observed
/// the closed channel and exited the loop.
#[derive(Clone, Copy, PartialEq, Eq, Structural, Debug)]
pub enum StepOutcome {
    Ran(u64),
    Exited,
}

/// Abstract state of a pool: each worker's lifecycle state in creation
/// order, the channel, the tickets already run to completion in the order
/// they were delivered, and how many submissions have been accepted (which
/// is also the next ticket to assign).
#[verifier::ext_equal]
pub ghost struct PoolModel {
    pub workers: Seq<WorkerState>,
    pub channel: ChannelModel,
    pub completed: Seq<u64>,
    pub submitted: u64,
}

/// Every ticket the pool has accepted: first those already run, then those
/// still pending in the channel.
pub open spec fn accepted(m: PoolModel) -> Seq<u64> {
    m.completed + m.channel.queue
}

/// The tickets 0 .. n in ascending order.
pub open spec fn tickets_up_to(n: u64) -> Seq<u64> {
    Seq::new(n as nat, |i: int| i as u64)
}

/// The pool invariant. Tickets are assigned in submission order and the
/// channel delivers in queue order, so the accepted sequence is exactly
/// 0 .. submitted: every accepted submission is accounted for once, either
/// run already or still pending — nothing lost, nothing duplicated. A
/// worker terminates only after observing the channel closed and empty,
/// and once closed the queue can only shrink, so a terminated worker
/// implies a closed, drained channel.
pub open spec fn pool_wf(m: PoolModel) -> bool {
    &&& m.workers.len() > 0
    &&& accepted(m) == tickets_up_to(m.submitted)
    &&& forall|i: int|
        0 <= i < m.workers.len() && m.workers[i] == WorkerState::Terminated ==> (
        !m.channel.open && m.channel.queue.len() == 0)
}

/// The state a pool reaches through shutdown: channel closed and drained,
/// every pending ticket run after those already completed, every worker
/// terminated, the count of accepted submissions unchanged.
pub open spec fn shutdown_spec(m: PoolModel) -> PoolModel {
    PoolModel {
        workers: Seq::new(m.workers.len(), |i: int| WorkerState::Terminated),
        channel: ChannelModel { queue: Seq::<u64>::empty(), open: false },
        completed: m.completed + m.channel.queue,
        submitted: m.submitted,
    }
}

/// A fixed-size worker pool around a closable work channel.
pub struct ThreadPool {
    workers: Vec<WorkerState>,
    channel: WorkChannel,
    completed: Vec<u64>,
    next_job: u64,
}

impl View for ThreadPool {
    type V = PoolModel;

    closed spec fn view(&self) -> PoolModel {
        PoolModel {
            workers: self.workers@,
            channel: self.channel@,
            completed: self.completed@,
            submitted: self.next_job,
        }
    }
}

impl ThreadPool {
    /// Well-formedness of this pool; established by the constructor and
    /// preserved by every transition.
    pub open spec fn wf(&self) -> bool {
        pool_wf(self@)
    }

    /// Create a pool of `size` workers bound to a fresh open channel.
    /// A size of zero is rejected; any positive size succeeds and spawns
    /// exactly that many running workers.
    pub fn new(size: usize) -> (r: Result<ThreadPool, PoolError>)
        ensures
            size == 0 <==> r is Err,
            r matches Err(e) ==> e == PoolError::ZeroWorkers,
            r matches Ok(p) ==> {
                &&& p.wf()
                &&& p@.workers.len() == size
                &&& forall|i: int| 0 <= i < size ==> p@.workers[i] == WorkerState::Running
                &&& p@.channel.open
                &&& p@.channel.queue.len() == 0
                &&& p@.completed.len() == 0
                &&& p@.submitted == 0
            },
    {
        if size == 0 {
            return Err(PoolError::ZeroWorkers);
        }
        let mut workers: Vec<WorkerState> = Vec::new();
        let mut id: usize = 0;
        while id < size
            invariant
                id <= size,
                workers@.len() == id,
                forall|i: int| 0 <= i < id ==> workers@[i] == WorkerState::Running,
            decreases size - id,
        {
            workers.push(WorkerState::Running);
            id += 1;
        }
        let pool = ThreadPool {
            workers,
            channel: WorkChannel::new(),
            completed: Vec::new(),
            next_job: 0,
        };
        proof {
            assert(accepted(pool@) =~= tickets_up_to(0));
        }
        Ok(pool)
    }

    /// Accept one unit of work: assign it the next ticket and enqueue the
    /// ticket for exactly one worker. The caller keeps the job's body and
    /// runs it when a worker step delivers the ticket. Succeeds if and only
    /// if shutdown has not begun; afterwards the submission is refused
    /// loudly, with the rejected ticket in the error, and the pool is left
    /// unchanged.
    pub fn execute(&mut self) -> (r: Result<u64, SendError>)
        requires
            old(self).wf(),
            old(self)@.submitted < u64::MAX,
        ensures
            final(self).wf(),
            final(self)@.workers == old(self)@.workers,
            old(self)@.channel.open ==> {
                &&& r == Ok::<u64, SendError>(old(self)@.submitted)
                &&& final(self)@.channel.open
                &&& final(self)@.channel.queue == old(self)@.channel.queue.push(
                    old(self)@.submitted)
                &&& final(self)@.completed == old(self)@.completed
                &&& final(self)@.submitted == old(self)@.submitted + 1
            },
            !old(self)@.channel.open ==> (r matches Err(e) && e.job == old(self)@.submitted)
                && final(self)@ == old(self)@,
    {
        let id = self.next_job;
        match self.channel.push(id) {
            Ok(()) => {
                self.next_job = id + 1;
                proof {
                    assert(accepted(self@) =~= accepted(old(self)@).push(id));
                    assert(accepted(old(self)@).push(id) =~= tickets_up_to((id + 1) as u64));
                }
                Ok(id)
            },
            Err(e) => {
                proof {
                    assert(self@ =~~= old(self)@);
                }
                Err(e)
            },
        }
    }

    /// One turn of a worker's pop-execute loop: take the oldest pending
    /// ticket and run its job to completion, or — when the channel is
    /// closed and drained — observe the closed signal and terminate. A
    /// running worker with an open, empty channel blocks in pop instead;
    /// that case is excluded by precondition.
    pub fn worker_step(&mut self, wid: usize) -> (r: StepOutcome)
        requires
            old(self).wf(),
            wid < old(self)@.workers.len(),
            old(self)@.workers[wid as int] == WorkerState::Running,
            old(self)@.channel.queue.len() > 0 || !old(self)@.channel.open,
        ensures
            final(self).wf(),
            final(self)@.submitted == old(self)@.submitted,
            final(self)@.channel.open == old(self)@.channel.open,
            old(self)@.channel.queue.len() > 0 ==> {
                &&& r == StepOutcome::Ran(old(self)@.channel.queue[0])
                &&& final(self)@.channel.queue == old(self)@.channel.queue.drop_first()
                &&& final(self)@.completed == old(self)@.completed.push(
                    old(self)@.channel.queue[0])
                &&& final(self)@.workers == old(self)@.workers
            },
            old(self)@.channel.queue.len() == 0 ==> {
                &&& r == StepOutcome::Exited
                &&& final(self)@.channel == old(self)@.channel
                &&& final(self)@.completed == old(self)@.completed
                &&& final(self)@.workers == old(self)@.workers.update(
                    wid as int, WorkerState::Terminated)
            },
    {
        match self.channel.pop() {
            PopResult::Job(id) => {
                self.completed.push(id);
                proof {
                    assert(accepted(self@) =~= accepted(old(self)@));
                }
                StepOutcome::Ran(id)
            },
            PopResult::Closed => {
                let state = &mut self.workers[wid];
                *state = WorkerState::Terminated;
                proof {
                    assert(accepted(self@) =~= accepted(old(self)@));
                }
                StepOutcome::Exited
            },
        }
    }

    /// Graceful teardown: close the channel so no further submission is
    /// accepted, then join every worker in creation order. Joining a
    /// running worker lets it drain whatever is still pending — each such
    /// job runs to completion exactly once — and then observe the closed
    /// signal and exit; a worker that has already terminated is skipped,
    /// so running shutdown again neither blocks nor double-joins.
    pub fn shutdown(&mut self)
        requires
            old(self).wf(),
        ensures
            final(self).wf(),
            final(self)@ == shutdown_spec(old(self)@),
            forall|i: int| 0 <= i < final(self)@.workers.len() ==> final(self)@.workers[i]
                == WorkerState::Terminated,
    {
        self.channel.close();
        proof {
            assert(accepted(self@) =~= accepted(old(self)@));
        }
        let n = self.workers.len();
        let mut wid: usize = 0;
        while wid < n
            invariant
                wid <= n,
                n == self@.workers.len(),
                self.wf(),
                !self@.channel.open,
                self@.submitted == old(self)@.submitted,
                accepted(self@) == accepted(old(self)@),
                forall|i: int| 0 <= i < wid ==> self@.workers[i] == WorkerState::Terminated,
                forall|i: int| wid <= i < n ==> self@.workers[i] == old(self)@.workers[i],
            decreases n - wid,
        {
            while self.workers[wid] == WorkerState::Running
                invariant
                    wid < n,
                    n == self@.workers.len(),
                    self.wf(),
                    !self@.channel.open,
                    self@.submitted == old(self)@.submitted,
                    accepted(self@) == accepted(old(self)@),
                    forall|i: int| 0 <= i < wid ==> self@.workers[i] == WorkerState::Terminated,
                    forall|i: int| wid < i < n ==> self@.workers[i] == old(self)@.workers[i],
                    self@.workers[wid as int] == WorkerState::Running || self@.workers[
                        wid as int] == WorkerState::Terminated,
                decreases self@.channel.queue.len() + (if self@.workers[wid as int]
                    == WorkerState::Running { 1int } else { 0int }),
            {
                let _ = self.worker_step(wid);
            }
            wid += 1;
        }
        proof {
            assert(self@.workers[0] == WorkerState::Terminated);
            assert(self@.channel.queue.len() == 0);
            assert(self@.completed =~= accepted(old(self)@));
            assert(self@ =~~= shutdown_spec(old(self)@));
        }
    }

    /// How many workers the pool owns.
    pub fn worker_count(&self) -> (n: usize)
        ensures
            n == self@.workers.len(),
    {
        self.workers.len()
    }

    /// The lifecycle state of the worker with ordinal `wid`.
    pub fn worker_state(&self, wid: usize) -> (s: WorkerState)
        requires
            wid < self@.workers.len(),
        ensures
            s == self@.workers[wid as int],
    {
        self.workers[wid]
    }

    /// Whether submissions are still accepted, i.e. shutdown has not begun.
    pub fn is_accepting(&self) -> (b: bool)
        ensures
            b == self@.channel.open,
    {
        self.channel.is_open()
    }

    /// How many accepted tickets wait in the channel, not yet delivered.
    pub fn pending_count(&self) -> (n: usize)
        ensures
            n == self@.channel.queue.len(),
    {
        self.channel.pending()
    }

    /// How many jobs have been delivered and run to completion.
    pub fn completed_count(&self) -> (n: usize)
        ensures
            n == self@.completed.len(),
    {
        self.completed.len()
    }

    /// The tickets of the jobs run so far, in the order they were
    /// delivered.
    pub fn completed_jobs(&self) -> (v: Vec<u64>)
        ensures
            v@ == self@.completed,
    {
        let mut v: Vec<u64> = Vec::new();
        let mut i: usize = 0;
        while i < self.completed.len()
            invariant
                i <= self.completed.len(),
                v@ == self@.completed.take(i as int),
            decreases self.completed.len() - i,
        {
            v.push(self.completed[i]);
            proof {
                assert(self@.completed.take(i + 1) =~= self@.completed.take(i as int).push(
                    self@.completed[i as int]));
            }
            i += 1;
        }
        proof {
            assert(self@.completed.take(self@.completed.len() as int) =~= self@.completed);
        }
        v
    }

    /// How many submissions have been accepted since construction; also the
    /// ticket the next successful submission will receive.
    pub fn submitted_count(&self) -> (n: u64)
        ensures
            n == self@.submitted,
    {
        self.next_job
    }
}

/// No accepted job is ever delivered twice: the completion history of a
/// well-formed pool is duplicate-free, whatever sequence of submissions and
/// worker steps produced it.
pub proof fn lemma_no_job_runs_twice(m: PoolModel)
    requires
        pool_wf(m),
    ensures
        m.completed.no_duplicates(),
{
    assert forall|i: int, j: int|
        0 <= i < m.completed.len() && 0 <= j < m.completed.len() && i != j implies m.completed[i]
        != m.completed[j] by {
        assert(accepted(m).len() == m.completed.len() + m.channel.queue.len());
        assert((m.completed + m.channel.queue)[i] == m.completed[i]);
        assert((m.completed + m.channel.queue)[j] == m.completed[j]);
        assert(tickets_up_to(m.submitted)[i] == i as u64);
        assert(tickets_up_to(m.submitted)[j] == j as u64);
    }
}

/// Accepted work is conserved: every submission the pool has accepted is
/// either already run or still pending, so completing all pending work
/// leaves the completion count at exactly the number of accepted
/// submissions — no silent loss, no double execution.
pub proof fn lemma_work_conserved(m: PoolModel)
    requires
        pool_wf(m),
    ensures
        m.completed.len() + m.channel.queue.len() == m.submitted,
{
    assert(accepted(m).len() == m.completed.len() + m.channel.queue.len());
    assert(tickets_up_to(m.submitted).len() == m.submitted);
}

/// Shutting down a well-formed pool runs every accepted job exactly once:
/// afterwards the completion history counts every accepted submission,
/// contains every accepted ticket, and contains no duplicate — no accepted
/// work is silently lost and none runs twice.
pub proof fn lemma_shutdown_runs_all_accepted(m: PoolModel)
    requires
        pool_wf(m),
    ensures
        shutdown_spec(m).completed.len() == m.submitted,
        shutdown_spec(m).completed.no_duplicates(),
        forall|id: u64| id < m.submitted ==> shutdown_spec(m).completed.contains(id),
{
    assert(accepted(shutdown_spec(m)) =~= accepted(m));
    lemma_no_job_runs_twice(shutdown_spec(m));
    assert forall|id: u64| id < m.submitted implies shutdown_spec(m).completed.contains(id) by {
        assert(shutdown_spec(m).completed[id as int] == id);
    }
}

/// Shutdown is idempotent on the pool state: tearing down an already
/// torn-down pool changes nothing, so a second (or scope-exit) shutdown
/// neither re-runs work nor double-joins a worker.
pub proof fn lemma_shutdown_idempotent(m: PoolModel)
    ensures
        shutdown_spec(shutdown_spec(m)) == shutdown_spec(m),
{
    assert(shutdown_spec(shutdown_spec(m)) =~~= shutdown_spec(m));
}

} // verus!
