//! The laws of the worker pool, proved of the model.
//!
//! Each law is stated of a pool that satisfies the invariant, or of a pool
//! reached from a fresh one by an arbitrary history of events, so it holds
//! whatever the callers and the workers do and in whatever order.

use vstd::prelude::*;
use crate::pool::model::{busy_count, Event, Outcome, PoolState, Step, WorkerState, WorkerView};

verus! {

/// Replacing one worker changes the number of busy workers by the
/// difference between the old and the new worker alone.
pub proof fn lemma_busy_count_update(workers: Seq<WorkerView>, w: int, view: WorkerView)
    requires
        0 <= w < workers.len(),
    ensures
        busy_count(workers.update(w, view)) + (if workers[w].busy {
            1nat
        } else {
            0nat
        }) == busy_count(workers) + (if view.busy {
            1nat
        } else {
            0nat
        }),
    decreases workers.len(),
{
    let updated = workers.update(w, view);
    if w == workers.len() - 1 {
        assert(updated.drop_last() =~= workers.drop_last());
    } else {
        assert(updated.drop_last() =~= workers.drop_last().update(w, view));
        lemma_busy_count_update(workers.drop_last(), w, view);
    }
}

/// Workers that differ at most in their state hold equally many jobs.
pub proof fn lemma_busy_count_same_busy(a: Seq<WorkerView>, b: Seq<WorkerView>)
    requires
        a.len() == b.len(),
        forall|w: int| 0 <= w < a.len() ==> a[w].busy == b[w].busy,
    ensures
        busy_count(a) == busy_count(b),
    decreases a.len(),
{
    if a.len() > 0 {
        lemma_busy_count_same_busy(a.drop_last(), b.drop_last());
    }
}

/// Where no worker is busy, no job is in flight.
pub proof fn lemma_busy_count_none(workers: Seq<WorkerView>)
    requires
        forall|w: int| 0 <= w < workers.len() ==> !workers[w].busy,
    ensures
        busy_count(workers) == 0,
    decreases workers.len(),
{
    if workers.len() > 0 {
        lemma_busy_count_none(workers.drop_last());
    }
}

/// A pool built with at least one worker starts with exactly that many
/// workers, all of them running and idle, an open endpoint and an empty
/// queue, and it satisfies the invariant.
pub proof fn law_build_starts_all_workers<J>(size: nat)
    requires
        size >= 1,
    ensures
        PoolState::<J>::init(size).inv(),
        PoolState::<J>::init(size).size() == size,
        PoolState::<J>::init(size).open,
        PoolState::<J>::init(size).queue.len() == 0,
        forall|w: int| 0 <= w < size ==> PoolState::<J>::init(size).idle(w),
        forall|w: int|
            0 <= w < size ==> PoolState::<J>::init(size).workers[w].state == WorkerState::Running,
{
    let s = PoolState::<J>::init(size);
    lemma_busy_count_none(s.workers);
    assert(s.accepted =~= s.dispatched + s.queue);
}

/// Every operation keeps the invariant and the number of workers.
pub proof fn lemma_apply_keeps_inv<J>(s: PoolState<J>, event: Event<J>)
    requires
        s.inv(),
    ensures
        s.apply(event).inv(),
        s.apply(event).size() == s.size(),
{
    let t = s.apply(event);
    match event {
        Event::Execute(job) => {
            if s.open {
                assert(t.accepted =~= t.dispatched + t.queue);
                assert forall|w: int|
                    0 <= w < t.workers.len() && #[trigger] t.workers[w].state
                        == WorkerState::Stopped implies !t.workers[w].busy && t.queue.len()
                    == 0 by {
                    assert(s.workers[w].state == WorkerState::Running);
                }
            }
        },
        Event::Next(w) => {
            if s.idle(w) {
                if s.queue.len() > 0 {
                    lemma_busy_count_update(
                        s.workers,
                        w,
                        WorkerView { busy: true, ..s.workers[w] },
                    );
                    assert(t.accepted =~= t.dispatched + t.queue);
                    assert forall|v: int| 0 <= v < t.workers.len() implies (t.open
                        <==> #[trigger] t.workers[v].state == WorkerState::Running) by {
                        assert(s.open <==> s.workers[v].state == WorkerState::Running);
                    }
                    assert forall|v: int|
                        0 <= v < t.workers.len() && #[trigger] t.workers[v].state
                            == WorkerState::Stopped implies !t.workers[v].busy && t.queue.len()
                        == 0 by {
                        assert(s.workers[v].state == WorkerState::Stopped);
                    }
                } else if !s.open {
                    lemma_busy_count_update(
                        s.workers,
                        w,
                        WorkerView { state: WorkerState::Stopped, busy: false },
                    );
                    assert forall|v: int| 0 <= v < t.workers.len() implies (t.open
                        <==> #[trigger] t.workers[v].state == WorkerState::Running) by {
                        assert(s.open <==> s.workers[v].state == WorkerState::Running);
                    }
                    assert forall|v: int|
                        0 <= v < t.workers.len() && #[trigger] t.workers[v].state
                            == WorkerState::Stopped implies !t.workers[v].busy && t.queue.len()
                        == 0 by {
                        if v != w {
                            assert(s.workers[v].state == WorkerState::Stopped);
                        }
                    }
                }
            }
        },
        Event::Finish(w, outcome) => {
            if s.busy(w) {
                lemma_busy_count_update(s.workers, w, WorkerView { busy: false, ..s.workers[w] });
                assert forall|v: int| 0 <= v < t.workers.len() implies (t.open
                    <==> #[trigger] t.workers[v].state == WorkerState::Running) by {
                    assert(s.open <==> s.workers[v].state == WorkerState::Running);
                }
                assert forall|v: int|
                    0 <= v < t.workers.len() && #[trigger] t.workers[v].state
                        == WorkerState::Stopped implies !t.workers[v].busy && t.queue.len()
                    == 0 by {
                    assert(s.workers[v].state == WorkerState::Stopped);
                }
            }
        },
        Event::Shutdown => {
            lemma_busy_count_same_busy(s.workers, t.workers);
            assert forall|v: int| 0 <= v < t.workers.len() implies (t.open
                <==> #[trigger] t.workers[v].state == WorkerState::Running) by {
                assert(s.open <==> s.workers[v].state == WorkerState::Running);
            }
            assert forall|v: int|
                0 <= v < t.workers.len() && #[trigger] t.workers[v].state
                    == WorkerState::Stopped implies !t.workers[v].busy && t.queue.len() == 0 by {
                assert(s.workers[v].state == WorkerState::Stopped);
            }
        },
    }
}

/// Whatever is done to a pool, and in whatever order, the invariant holds
/// afterwards and the pool has the workers it was built with: the worker
/// set never grows or shrinks.
pub proof fn law_invariant_holds_throughout<J>(s: PoolState<J>, events: Seq<Event<J>>)
    requires
        s.inv(),
    ensures
        s.run(events).inv(),
        s.run(events).size() == s.size(),
    decreases events.len(),
{
    if events.len() > 0 {
        law_invariant_holds_throughout(s, events.drop_last());
        lemma_apply_keeps_inv(s.run(events.drop_last()), events.last());
    }
}

/// Every job runs exactly once. After any history on a fresh pool, the
/// accepted jobs are the handed-out jobs followed by the queued ones: each
/// accepted job has been handed to a worker once, or waits in the queue
/// once, and nothing else was handed out or waits. Of the handed-out jobs,
/// each is finished or held by one busy worker.
pub proof fn law_every_job_exactly_once<J>(size: nat, events: Seq<Event<J>>)
    requires
        size >= 1,
    ensures
        ({
            let s = PoolState::<J>::init(size).run(events);
            &&& s.accepted == s.dispatched + s.queue
            &&& s.accepted.len() == s.finished + s.in_flight() + s.queue.len()
            &&& forall|k: int|
                0 <= k < s.accepted.len() ==> (if k < s.dispatched.len() {
                    s.dispatched[k] == s.accepted[k]
                } else {
                    s.queue[k - s.dispatched.len()] == s.accepted[k]
                })
        }),
{
    law_build_starts_all_workers::<J>(size);
    law_invariant_holds_throughout(PoolState::<J>::init(size), events);
}

/// Jobs leave the queue in the order in which they were accepted: the
/// `k`-th job handed out is the `k`-th job accepted. So of two accepted
/// jobs, the later one is handed out only after the earlier one.
pub proof fn law_dispatch_is_fifo<J>(s: PoolState<J>, earlier: int, later: int)
    requires
        s.inv(),
        0 <= earlier < later < s.accepted.len(),
        later < s.dispatched.len(),
    ensures
        earlier < s.dispatched.len(),
        s.dispatched[earlier] == s.accepted[earlier],
        s.dispatched[later] == s.accepted[later],
{
}

/// A worker that asks for work is handed the oldest queued job, and the
/// jobs behind it keep their order.
pub proof fn law_next_takes_the_oldest<J>(s: PoolState<J>, w: int)
    requires
        s.inv(),
        s.idle(w),
        s.queue.len() > 0,
    ensures
        s.decide(w) == Step::Run(s.queue[0]),
        s.queue == seq![s.queue[0]] + s.next(w).queue,
        s.next(w).dispatched == s.dispatched.push(s.queue[0]),
{
    assert(s.queue =~= seq![s.queue[0]] + s.next(w).queue);
}

/// Shutdown is graceful. It discards nothing: the queue, the accepted and
/// the handed-out jobs are what they were. Afterwards no job is accepted,
/// and a worker stops only when the queue is empty, so once every worker
/// has stopped every accepted job has been handed out and finished.
pub proof fn law_shutdown_drains<J>(s: PoolState<J>, events: Seq<Event<J>>, job: J)
    requires
        s.inv(),
    ensures
        s.shutdown().queue == s.queue,
        s.shutdown().accepted == s.accepted,
        s.shutdown().dispatched == s.dispatched,
        s.shutdown().execute(job) == s.shutdown(),
        !s.shutdown().run(events).open,
        s.shutdown().run(events).terminated() ==> {
            let t = s.shutdown().run(events);
            &&& t.queue.len() == 0
            &&& t.in_flight() == 0
            &&& t.dispatched == t.accepted
            &&& t.finished == t.accepted.len()
        },
{
    lemma_apply_keeps_inv(s, Event::Shutdown);
    lemma_closed_stays_closed(s.shutdown(), events);
    law_terminated_means_drained(s.shutdown().run(events));
}

/// Once closed, the endpoint never opens again.
pub proof fn lemma_closed_stays_closed<J>(s: PoolState<J>, events: Seq<Event<J>>)
    requires
        s.inv(),
        !s.open,
    ensures
        s.run(events).inv(),
        !s.run(events).open,
    decreases events.len(),
{
    law_invariant_holds_throughout(s, events);
    if events.len() > 0 {
        lemma_closed_stays_closed(s, events.drop_last());
    }
}

/// Once every worker has stopped, nothing is queued, nothing is in flight,
/// and every accepted job has been handed out and finished.
pub proof fn law_terminated_means_drained<J>(s: PoolState<J>)
    requires
        s.inv(),
    ensures
        s.terminated() ==> {
            &&& !s.open
            &&& s.queue.len() == 0
            &&& s.in_flight() == 0
            &&& s.dispatched == s.accepted
            &&& s.finished == s.accepted.len()
        },
{
    if s.terminated() {
        assert(s.workers[0].state == WorkerState::Stopped);
        assert forall|w: int| 0 <= w < s.workers.len() implies !s.workers[w].busy by {
            assert(s.workers[w].state == WorkerState::Stopped);
        }
        lemma_busy_count_none(s.workers);
        assert(s.dispatched + s.queue =~= s.dispatched);
    }
}

/// After shutdown began no live worker is told to wait: one that asks for
/// work is handed the oldest queued job, or leaves when the queue is empty.
pub proof fn law_no_wait_after_shutdown<J>(s: PoolState<J>, w: int)
    requires
        s.inv(),
        !s.open,
        s.idle(w),
    ensures
        s.decide(w) != Step::<J>::Wait,
        s.queue.len() > 0 ==> s.decide(w) == Step::Run(s.queue[0]),
        s.queue.len() == 0 ==> s.decide(w) == Step::<J>::Exit && s.next(w).workers[w].state
            == WorkerState::Stopped,
{
}

/// A failing job is contained. The worker that ran it is left exactly as a
/// completed job would leave it, still part of the pool and free to take
/// the next job; no other worker, and nothing that is queued, is touched.
/// The two outcomes differ in the count of failures alone.
pub proof fn law_failure_is_isolated<J>(s: PoolState<J>, w: int)
    requires
        s.inv(),
        s.busy(w),
    ensures
        s.finish(w, Outcome::Failed) == (PoolState {
            failed: s.failed + 1,
            ..s.finish(w, Outcome::Completed)
        }),
        s.finish(w, Outcome::Failed).workers[w].state == s.workers[w].state,
        s.finish(w, Outcome::Failed).idle(w),
        s.finish(w, Outcome::Failed).queue == s.queue,
        forall|v: int|
            0 <= v < s.size() && v != w ==> s.finish(w, Outcome::Failed).workers[v] == s.workers[v],
        s.queue.len() > 0 ==> s.finish(w, Outcome::Failed).decide(w) == Step::Run(s.queue[0]),
{
    assert(s.workers[w].state != WorkerState::Stopped);
}

} // verus!
