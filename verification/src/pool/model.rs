//! The mathematical model of the worker pool.
//!
//! A pool is a fixed table of workers, a first-in-first-out dispatch queue
//! and an open-or-closed submission endpoint. The model also keeps the
//! history that the laws of the pool are stated over: every job that was
//! ever accepted, every job that was handed to a worker, and how many of
//! those have been run to their end.

use vstd::prelude::*;

verus! {

/// Where a worker stands in its life.
#[derive(Clone, Copy, Debug, PartialEq, Eq, Structural)]
pub enum WorkerState {
    /// The endpoint is open: the worker waits for a job or runs one.
    Running,
    /// The endpoint was closed: the worker finishes what is left.
    Draining,
    /// The worker has left its loop for good.
    Stopped,
}

/// How the run of a job ended.
#[derive(Clone, Copy, Debug, PartialEq, Eq, Structural)]
pub enum Outcome {
    /// The job ran to its end.
    Completed,
    /// The job failed part-way; the failure stays with the job.
    Failed,
}

/// What a worker that asks for work is told to do.
#[derive(Debug, PartialEq, Eq)]
pub enum Step<J> {
    /// Run this job to its end, then report the outcome.
    Run(J),
    /// Nothing is queued and more may come: block until woken.
    Wait,
    /// Leave the loop: the worker is not, or no longer, part of the pool.
    Exit,
}

/// One worker as the model sees it.
pub struct WorkerView {
    pub state: WorkerState,
    /// Whether a job was handed to the worker and not yet reported finished.
    pub busy: bool,
}

/// The state of a pool.
pub struct PoolState<J> {
    /// The workers, by identity: worker `i` is `workers[i]`.
    pub workers: Seq<WorkerView>,
    /// Jobs accepted and not yet handed out, oldest first.
    pub queue: Seq<J>,
    /// Whether the submission endpoint still accepts jobs.
    pub open: bool,
    /// Every job ever accepted, in the order of acceptance.
    pub accepted: Seq<J>,
    /// Every job ever handed to a worker, in the order of hand-out.
    pub dispatched: Seq<J>,
    /// How many handed-out jobs were reported finished, failed ones included.
    pub finished: nat,
    /// How many of the finished jobs failed.
    pub failed: nat,
}

/// An operation on a pool, as one element of a history.
pub enum Event<J> {
    /// A caller submits a job.
    Execute(J),
    /// The worker with this identity asks for work.
    Next(int),
    /// The worker with this identity reports the end of its job.
    Finish(int, Outcome),
    /// The pool is told to shut down.
    Shutdown,
}

/// The number of busy workers among `workers`.
pub open spec fn busy_count(workers: Seq<WorkerView>) -> nat
    decreases workers.len(),
{
    if workers.len() == 0 {
        0
    } else {
        busy_count(workers.drop_last()) + if workers.last().busy {
            1nat
        } else {
            0nat
        }
    }
}

impl<J> PoolState<J> {
    /// A fresh pool of `size` workers: all running and idle, nothing queued.
    pub open spec fn init(size: nat) -> Self {
        PoolState {
            workers: Seq::new(size, |i: int| WorkerView { state: WorkerState::Running, busy: false }),
            queue: Seq::empty(),
            open: true,
            accepted: Seq::empty(),
            dispatched: Seq::empty(),
            finished: 0,
            failed: 0,
        }
    }

    /// The number of workers, fixed for the life of the pool.
    pub open spec fn size(self) -> nat {
        self.workers.len()
    }

    /// `w` names a worker that has not stopped.
    pub open spec fn live(self, w: int) -> bool {
        0 <= w < self.workers.len() && self.workers[w].state != WorkerState::Stopped
    }

    /// `w` names a live worker that holds no job.
    pub open spec fn idle(self, w: int) -> bool {
        self.live(w) && !self.workers[w].busy
    }

    /// `w` names a worker that holds a job.
    pub open spec fn busy(self, w: int) -> bool {
        0 <= w < self.workers.len() && self.workers[w].busy
    }

    /// The number of jobs handed out and not yet reported finished.
    pub open spec fn in_flight(self) -> nat {
        busy_count(self.workers)
    }

    /// Every worker has stopped.
    pub open spec fn terminated(self) -> bool {
        forall|w: int| 0 <= w < self.workers.len() ==> self.workers[w].state == WorkerState::Stopped
    }

    /// What holds of every pool that was built and then only operated on.
    pub open spec fn inv(self) -> bool {
        &&& self.workers.len() >= 1
        &&& forall|w: int|
            0 <= w < self.workers.len() ==> (self.open <==> #[trigger] self.workers[w].state
                == WorkerState::Running)
        &&& forall|w: int|
            0 <= w < self.workers.len() && #[trigger] self.workers[w].state == WorkerState::Stopped
                ==> !self.workers[w].busy && self.queue.len() == 0
        &&& self.accepted == self.dispatched + self.queue
        &&& self.dispatched.len() == self.finished + self.in_flight()
        &&& self.failed <= self.finished
    }

    /// The pool after a caller submitted `job`: queued at the back while the
    /// endpoint is open, refused without a trace once it is closed.
    pub open spec fn execute(self, job: J) -> Self {
        if self.open {
            PoolState { queue: self.queue.push(job), accepted: self.accepted.push(job), ..self }
        } else {
            self
        }
    }

    /// What worker `w` is told when it asks for work.
    pub open spec fn decide(self, w: int) -> Step<J> {
        if !self.live(w) {
            Step::Exit
        } else if self.workers[w].busy {
            Step::Wait
        } else if self.queue.len() > 0 {
            Step::Run(self.queue[0])
        } else if self.open {
            Step::Wait
        } else {
            Step::Exit
        }
    }

    /// The pool after worker `w` asked for work.
    pub open spec fn next(self, w: int) -> Self {
        if !self.idle(w) {
            self
        } else if self.queue.len() > 0 {
            PoolState {
                workers: self.workers.update(w, WorkerView { busy: true, ..self.workers[w] }),
                queue: self.queue.subrange(1, self.queue.len() as int),
                dispatched: self.dispatched.push(self.queue[0]),
                ..self
            }
        } else if self.open {
            self
        } else {
            PoolState {
                workers: self.workers.update(
                    w,
                    WorkerView { state: WorkerState::Stopped, busy: false },
                ),
                ..self
            }
        }
    }

    /// The pool after worker `w` reported the end of its job. The worker
    /// stays in the state it was in, whatever the outcome.
    pub open spec fn finish(self, w: int, outcome: Outcome) -> Self {
        if self.busy(w) {
            PoolState {
                workers: self.workers.update(w, WorkerView { busy: false, ..self.workers[w] }),
                finished: self.finished + 1,
                failed: if outcome == Outcome::Failed {
                    self.failed + 1
                } else {
                    self.failed
                },
                ..self
            }
        } else {
            self
        }
    }

    /// The pool after shutdown began: the endpoint is closed and every
    /// running worker drains. Queued jobs stay queued.
    pub open spec fn shutdown(self) -> Self {
        PoolState {
            workers: Seq::new(
                self.workers.len(),
                |w: int|
                    if self.workers[w].state == WorkerState::Running {
                        WorkerView { state: WorkerState::Draining, ..self.workers[w] }
                    } else {
                        self.workers[w]
                    },
            ),
            open: false,
            ..self
        }
    }

    /// The pool after one event.
    pub open spec fn apply(self, event: Event<J>) -> Self {
        match event {
            Event::Execute(job) => self.execute(job),
            Event::Next(w) => self.next(w),
            Event::Finish(w, outcome) => self.finish(w, outcome),
            Event::Shutdown => self.shutdown(),
        }
    }

    /// The pool after a history of events, oldest first.
    pub open spec fn run(self, events: Seq<Event<J>>) -> Self
        decreases events.len(),
    {
        if events.len() == 0 {
            self
        } else {
            self.run(events.drop_last()).apply(events.last())
        }
    }
}

} // verus!
