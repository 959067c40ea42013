//! A fixed-size worker pool as a state machine.
//!
//! [`Pool`] owns a fixed table of workers and a first-in-first-out queue of
//! jobs. It makes every decision of a worker pool (whether a submission is
//! accepted, which job a worker runs next, when a worker waits and when it
//! leaves) and performs none of the waiting or running itself. A driver
//! owns the execution contexts: each of its workers calls [`Pool::next`],
//! does what the answer says, and reports back with [`Pool::finish`].
//!
//! The pool is generic in the job type, so a driver may queue boxed
//! closures and a simulation plain numbers.
//!
//! Submitting to a pool whose shutdown has begun is refused: the job is
//! handed back to the caller and the pool is left as it was.

pub mod laws;
pub mod model;

use crate::pool::laws::{lemma_apply_keeps_inv, law_build_starts_all_workers};
use crate::pool::model::{Event, Outcome, PoolState, Step, WorkerState, WorkerView};
use std::collections::VecDeque;
use vstd::prelude::*;

verus! {

/// Why a pool could not be built.
#[derive(Debug)]
pub struct PoolCreationError {
    /// A description for the person who reads the log.
    pub msg: String,
}

/// One worker of a pool.
#[derive(Clone, Copy, Debug)]
pub struct Worker {
    id: usize,
    state: WorkerState,
    busy: bool,
}

impl Worker {
    /// What the model sees of the worker.
    pub closed spec fn view(self) -> WorkerView {
        WorkerView { state: self.state, busy: self.busy }
    }
}

/// A pool of a fixed number of workers that share one queue of jobs.
pub struct Pool<J> {
    workers: Vec<Worker>,
    queue: VecDeque<J>,
    open: bool,
    accepted: Ghost<Seq<J>>,
    dispatched: Ghost<Seq<J>>,
    finished: Ghost<nat>,
    failed: Ghost<nat>,
}

impl<J> View for Pool<J> {
    type V = PoolState<J>;

    closed spec fn view(&self) -> PoolState<J> {
        PoolState {
            workers: Seq::new(self.workers@.len(), |w: int| self.workers@[w].view()),
            queue: self.queue@,
            open: self.open,
            accepted: self.accepted@,
            dispatched: self.dispatched@,
            finished: self.finished@,
            failed: self.failed@,
        }
    }
}

/// Whether a pool may have `size` workers: it needs at least one. Both
/// ways of building a pool go by this rule and no other.
pub open spec fn valid_size(size: usize) -> bool {
    size >= 1
}

/// The text of the error for a pool without workers.
pub open spec fn zero_size_message() -> Seq<char> {
    "a pool needs at least one worker"@
}

/// The two ways of building a pool signal the same condition, a size that
/// is not valid, which is the size zero and no other. For that size
/// `build` returns the error and no pool, and `new` may not be called at
/// all. For every other size `new` may be called and `build` succeeds,
/// and both start the pool that the model calls fresh.
pub proof fn law_invalid_size_is_signalled_by_both<J>(
    size: usize,
    built: Result<Pool<J>, PoolCreationError>,
    made: Pool<J>,
)
    requires
        call_ensures(Pool::<J>::build, (size,), built),
        valid_size(size) ==> call_ensures(Pool::<J>::new, (size,), made),
    ensures
        valid_size(size) <==> size != 0,
        !PoolState::<J>::init(0).inv(),
        !valid_size(size) ==> (built matches Err(e) && e.msg@ == zero_size_message()),
        valid_size(size) ==> call_requires(Pool::<J>::new, (size,)),
        valid_size(size) ==> (built matches Ok(pool) && pool@ == made@),
        valid_size(size) ==> made@ == PoolState::<J>::init(size as nat) && made@.size() == size,
{
}

impl<J> Pool<J> {
    /// The pool is one that was built and then only operated on: its model
    /// satisfies the invariant and each worker knows its own position.
    pub closed spec fn wf(&self) -> bool {
        &&& self@.inv()
        &&& forall|w: int| 0 <= w < self.workers@.len() ==> self.workers@[w].id == w
    }

    /// A well-formed pool satisfies the invariant of the model, so every
    /// law of the model holds of it.
    pub proof fn lemma_wf_gives_inv(&self)
        requires
            self.wf(),
        ensures
            self@.inv(),
            self@.size() >= 1,
    {
    }

    /// Judges a number of workers: the error for a size that no pool can
    /// have, and nothing to object to otherwise. No worker is started.
    pub fn check_size(size: usize) -> (checked: Result<(), PoolCreationError>)
        ensures
            valid_size(size) <==> checked is Ok,
            checked matches Err(e) ==> e.msg@ == zero_size_message(),
    {
        if size == 0 {
            Err(PoolCreationError { msg: "a pool needs at least one worker".to_string() })
        } else {
            Ok(())
        }
    }

    /// Builds a pool of `size` workers, all running and idle, with an open
    /// endpoint and an empty queue. A size that is not valid is refused
    /// with an error, and no pool and no worker comes to be.
    pub fn build(size: usize) -> (built: Result<Pool<J>, PoolCreationError>)
        ensures
            valid_size(size) <==> built is Ok,
            built matches Err(e) ==> e.msg@ == zero_size_message(),
            built matches Ok(pool) ==> pool.wf() && pool@ == PoolState::<J>::init(size as nat),
    {
        match Pool::<J>::check_size(size) {
            Err(e) => Err(e),
            Ok(()) => Ok(Pool::new(size)),
        }
    }

    /// Builds a pool of `size` workers for a caller who vouches that the
    /// size is valid. For such a caller a size that is not valid is a
    /// fault of the program and not a condition to recover from: the
    /// precondition leaves it out.
    pub fn new(size: usize) -> (pool: Pool<J>)
        requires
            valid_size(size),
        ensures
            pool.wf(),
            pool@ == PoolState::<J>::init(size as nat),
    {
        let mut workers: Vec<Worker> = Vec::new();
        let mut id: usize = 0;
        while id < size
            invariant
                id <= size,
                workers@.len() == id,
                forall|w: int|
                    0 <= w < id ==> #[trigger] workers@[w] == (Worker {
                        id: w as usize,
                        state: WorkerState::Running,
                        busy: false,
                    }),
            decreases size - id,
        {
            workers.push(Worker { id, state: WorkerState::Running, busy: false });
            id += 1;
        }
        let pool = Pool {
            workers,
            queue: VecDeque::new(),
            open: true,
            accepted: Ghost(Seq::empty()),
            dispatched: Ghost(Seq::empty()),
            finished: Ghost(0),
            failed: Ghost(0),
        };
        proof {
            law_build_starts_all_workers::<J>(size as nat);
            assert(pool@.workers =~= PoolState::<J>::init(size as nat).workers);
            assert(pool@.queue =~= PoolState::<J>::init(size as nat).queue);
        }
        pool
    }

    /// The number of workers.
    pub fn size(&self) -> (size: usize)
        requires
            self.wf(),
        ensures
            size == self@.size(),
            size >= 1,
    {
        self.workers.len()
    }

    /// The number of jobs that wait in the queue.
    pub fn pending(&self) -> (pending: usize)
        ensures
            pending == self@.queue.len(),
    {
        self.queue.len()
    }

    /// Whether the pool still accepts jobs.
    pub fn is_open(&self) -> (open: bool)
        ensures
            open == self@.open,
    {
        self.open
    }

    /// The state of worker `worker`, if the pool has such a worker.
    pub fn worker_state(&self, worker: usize) -> (state: Option<WorkerState>)
        ensures
            state == if worker < self@.size() {
                Some(self@.workers[worker as int].state)
            } else {
                None
            },
    {
        if worker < self.workers.len() {
            Some(self.workers[worker].state)
        } else {
            None
        }
    }

    /// Whether worker `worker` holds a job.
    pub fn is_busy(&self, worker: usize) -> (busy: bool)
        ensures
            busy == self@.busy(worker as int),
    {
        worker < self.workers.len() && self.workers[worker].busy
    }

    /// Whether every worker has stopped.
    pub fn is_terminated(&self) -> (terminated: bool)
        ensures
            terminated == self@.terminated(),
    {
        let mut w: usize = 0;
        while w < self.workers.len()
            invariant
                w <= self.workers@.len(),
                forall|v: int| 0 <= v < w ==> self@.workers[v].state == WorkerState::Stopped,
            decreases self.workers@.len() - w,
        {
            if self.workers[w].state != WorkerState::Stopped {
                assert(self@.workers[w as int].state != WorkerState::Stopped);
                return false;
            }
            w += 1;
        }
        true
    }

    /// Submits `job`. While the endpoint is open the job joins the back of
    /// the queue; once shutdown has begun it is handed back and the pool
    /// stays as it was. The call never waits for the job to run.
    pub fn execute(&mut self, job: J) -> (queued: Result<(), J>)
        requires
            old(self).wf(),
        ensures
            final(self).wf(),
            final(self)@ == old(self)@.execute(job),
            old(self)@.open ==> queued is Ok,
            !old(self)@.open ==> queued == Err::<(), J>(job),
    {
        proof {
            lemma_apply_keeps_inv(self@, Event::Execute(job));
        }
        if self.open {
            self.accepted = Ghost(self.accepted@.push(job));
            self.queue.push_back(job);
            Ok(())
        } else {
            Err(job)
        }
    }

    /// Worker `worker` asks for work. An idle worker is handed the oldest
    /// queued job; with nothing queued it is told to wait while the
    /// endpoint is open, and to leave, and is stopped, once it is closed.
    /// A worker that still holds a job is told to wait, and one that has
    /// stopped or that the pool does not have is told to leave; neither
    /// changes the pool.
    pub fn next(&mut self, worker: usize) -> (step: Step<J>)
        requires
            old(self).wf(),
        ensures
            final(self).wf(),
            step == old(self)@.decide(worker as int),
            final(self)@ == old(self)@.next(worker as int),
    {
        proof {
            lemma_apply_keeps_inv(self@, Event::Next(worker as int));
        }
        if worker >= self.workers.len() {
            return Step::Exit;
        }
        let current = self.workers[worker];
        if current.state == WorkerState::Stopped {
            return Step::Exit;
        }
        if current.busy {
            return Step::Wait;
        }
        match self.queue.pop_front() {
            Some(job) => {
                self.workers.set(worker, Worker { busy: true, ..current });
                self.dispatched = Ghost(self.dispatched@.push(job));
                assert(self@.workers =~= old(self)@.next(worker as int).workers);
                Step::Run(job)
            },
            None => {
                if self.open {
                    Step::Wait
                } else {
                    self.workers.set(
                        worker,
                        Worker { state: WorkerState::Stopped, busy: false, ..current },
                    );
                    assert(self@.workers =~= old(self)@.next(worker as int).workers);
                    Step::Exit
                }
            },
        }
    }

    /// Worker `worker` reports that the job it held has ended, in success
    /// or in failure. Either way the worker is idle again and stays part of
    /// the pool. The report of a worker that holds no job changes nothing;
    /// the result says whether the report was taken.
    pub fn finish(&mut self, worker: usize, outcome: Outcome) -> (taken: bool)
        requires
            old(self).wf(),
        ensures
            final(self).wf(),
            taken == old(self)@.busy(worker as int),
            final(self)@ == old(self)@.finish(worker as int, outcome),
    {
        proof {
            lemma_apply_keeps_inv(self@, Event::Finish(worker as int, outcome));
        }
        if worker < self.workers.len() && self.workers[worker].busy {
            let current = self.workers[worker];
            self.workers.set(worker, Worker { busy: false, ..current });
            self.finished = Ghost(self.finished@ + 1);
            if outcome == Outcome::Failed {
                self.failed = Ghost(self.failed@ + 1);
            }
            assert(self@.workers =~= old(self)@.finish(worker as int, outcome).workers);
            true
        } else {
            false
        }
    }

    /// Begins shutdown: closes the endpoint and turns every running worker
    /// into a draining one. Queued jobs stay queued for the workers to
    /// drain. Calling it again changes nothing.
    pub fn shutdown(&mut self)
        requires
            old(self).wf(),
        ensures
            final(self).wf(),
            final(self)@ == old(self)@.shutdown(),
    {
        proof {
            lemma_apply_keeps_inv(self@, Event::Shutdown);
        }
        self.open = false;
        let mut w: usize = 0;
        while w < self.workers.len()
            invariant
                w <= self.workers@.len(),
                self.workers@.len() == old(self).workers@.len(),
                self.queue == old(self).queue,
                self.accepted == old(self).accepted,
                self.dispatched == old(self).dispatched,
                self.finished == old(self).finished,
                self.failed == old(self).failed,
                !self.open,
                forall|v: int|
                    0 <= v < self.workers@.len() ==> (#[trigger] self.workers@[v]).id == v,
                forall|v: int|
                    0 <= v < w ==> (#[trigger] self.workers@[v]).view() == old(
                        self,
                    )@.shutdown().workers[v],
                forall|v: int|
                    w <= v < self.workers@.len() ==> #[trigger] self.workers@[v] == old(
                        self,
                    ).workers@[v],
            decreases self.workers@.len() - w,
        {
            let current = self.workers[w];
            if current.state == WorkerState::Running {
                self.workers.set(w, Worker { state: WorkerState::Draining, ..current });
            }
            w += 1;
        }
        assert(self@.workers =~= old(self)@.shutdown().workers);
    }
}

} // verus!
