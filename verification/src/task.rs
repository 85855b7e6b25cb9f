//! Tasks that run work elsewhere and hand back one result, and a pool that
//! runs at most a fixed number of them at once.
//!
//! The work itself (spawning a thread, waiting on a channel) is supplied by
//! the caller as closures; what is decided here is when a task starts, when
//! it counts as done, and which queued tasks a pool starts next.

use vstd::prelude::*;
use std::collections::VecDeque;

verus! {

/// One piece of work that runs elsewhere and hands back one result.
///
/// `A` is the work not yet started, `R` the handle through which its result
/// arrives once it runs.
pub struct Task<A, R> {
    rx: Option<R>,
    action: Option<A>,
    done: bool,
}

impl<A, R> Task<A, R> {
    /// The work that has not been started yet, if any.
    pub closed spec fn pending(&self) -> Option<A> {
        self.action
    }

    /// The handle of the running work, once started.
    pub closed spec fn receiver(&self) -> Option<R> {
        self.rx
    }

    /// Whether the result has been received.
    pub closed spec fn finished(&self) -> bool {
        self.done
    }

    /// A task for a piece of work, not yet started.
    pub fn new(action: A) -> (t: Self)
        ensures
            t.pending() == Some(action),
            t.receiver() is None,
            !t.finished(),
    {
        Task { action: Some(action), done: false, rx: None }
    }

    /// Starts the work with `spawn` unless it was started before.
    pub fn start<F: FnOnce(A) -> R>(&mut self, spawn: F)
        requires
            old(self).pending() matches Some(a) ==> spawn.requires((a,)),
        ensures
            task_started(*old(self), *final(self), spawn),
            task_moved(*old(self), *final(self), TaskCall::Start, false),
    {
        let action = self.action.take();
        match action {
            Some(action) => {
                let rx = spawn(action);
                self.rx = Some(rx);
            },
            None => {},
        }
    }

    /// A task for a piece of work, started at once with `spawn`.
    pub fn exec<F: FnOnce(A) -> R>(action: A, spawn: F) -> (t: Self)
        requires
            spawn.requires((action,)),
        ensures
            t.pending() is None,
            t.receiver() matches Some(r) && spawn.ensures((action,), r),
            !t.finished(),
    {
        let mut task = Self::new(action);
        task.start(spawn);
        task
    }

    /// Whether the work has been started.
    pub fn started(&self) -> (r: bool)
        ensures
            r == self.receiver() is Some,
    {
        self.rx.is_some()
    }

    /// Whether the result has been received.
    pub fn done(&self) -> (r: bool)
        ensures
            r == self.finished(),
    {
        self.done
    }

    /// Waits for the result with `recv`; nothing happens before the work
    /// has started.
    pub fn block<T, G: FnOnce(&R) -> Option<T>>(&mut self, recv: G) -> (res: Option<T>)
        requires
            old(self).receiver() matches Some(r) ==> recv.requires((&r,)),
        ensures
            task_received(*old(self), *final(self), res, false, recv),
            task_moved(*old(self), *final(self), TaskCall::Block, res is Some),
    {
        let data = match &self.rx {
            None => {
                return None;
            },
            Some(rx) => recv(rx),
        };
        if data.is_some() {
            self.done = true;
        }
        data
    }

    /// Takes the result with `try_recv` if it has arrived; nothing happens
    /// before the work has started or after the result was taken.
    pub fn poll<T, G: FnOnce(&R) -> Option<T>>(&mut self, try_recv: G) -> (res: Option<T>)
        requires
            old(self).receiver() matches Some(r) ==> try_recv.requires((&r,)),
        ensures
            task_received(*old(self), *final(self), res, true, try_recv),
            task_moved(*old(self), *final(self), TaskCall::Poll, res is Some),
    {
        if self.done {
            return None;
        }
        let data = match &self.rx {
            None => {
                return None;
            },
            Some(rx) => try_recv(rx),
        };
        if data.is_some() {
            self.done = true;
        }
        data
    }
}

/// `after` is `before` once started with `spawn`: work not yet started is
/// handed to `spawn`, whose handle the task keeps; a started task is left
/// as it was.
pub open spec fn task_started<A, R, F: FnOnce(A) -> R>(before: Task<A, R>, after: Task<A, R>, spawn: F) -> bool {
    match before.pending() {
        Some(a) => {
            &&& after.pending() is None
            &&& after.receiver() matches Some(r) && spawn.ensures((a,), r)
            &&& after.finished() == before.finished()
        },
        None => after == before,
    }
}

/// `after` and `res` are what asking `before` for its result with `recv`
/// gives: a task not started, or (when `skip_done`) already done, gives
/// nothing and stays as it was; otherwise `res` is what `recv` returned and
/// the task is done once a result came.
pub open spec fn task_received<A, R, T, G: FnOnce(&R) -> Option<T>>(
    before: Task<A, R>,
    after: Task<A, R>,
    res: Option<T>,
    skip_done: bool,
    recv: G,
) -> bool {
    match before.receiver() {
        None => res is None && after == before,
        Some(r) => if skip_done && before.finished() {
            res is None && after == before
        } else {
            &&& recv.ensures((&r,), res)
            &&& after.pending() == before.pending()
            &&& after.receiver() == before.receiver()
            &&& after.finished() == (res is Some || before.finished())
        },
    }
}

/// A call on a task: starting it, waiting for its result, or polling.
#[derive(Clone, Copy, PartialEq, Eq, Structural, Debug)]
pub enum TaskCall {
    Start,
    Block,
    Poll,
}

/// What a call does to a task, seen without the work and its result:
/// `got` tells whether the call returned a result. A start hands the work
/// out; a wait or poll on a started task marks it done when a result came;
/// a poll on a done task, and any call that does not apply, changes nothing
/// and returns nothing.
pub open spec fn task_moved<A, R>(before: Task<A, R>, after: Task<A, R>, call: TaskCall, got: bool) -> bool {
    match call {
        TaskCall::Start => !got && match before.pending() {
            Some(_) => after.pending() is None && after.receiver() is Some && after.finished() == before.finished(),
            None => after == before,
        },
        TaskCall::Block => match before.receiver() {
            None => !got && after == before,
            Some(_) => {
                &&& after.pending() == before.pending()
                &&& after.receiver() == before.receiver()
                &&& after.finished() == (got || before.finished())
            },
        },
        TaskCall::Poll => match before.receiver() {
            None => !got && after == before,
            Some(_) => if before.finished() {
                !got && after == before
            } else {
                &&& after.pending() == before.pending()
                &&& after.receiver() == before.receiver()
                &&& after.finished() == got
            },
        },
    }
}

/// `ts` is the life of a task: `ts[i + 1]` is `ts[i]` after call `calls[i]`,
/// which returned a result when `gots[i]` holds.
pub open spec fn task_life<A, R>(ts: Seq<Task<A, R>>, calls: Seq<TaskCall>, gots: Seq<bool>) -> bool {
    &&& ts.len() == calls.len() + 1
    &&& gots.len() == calls.len()
    &&& forall|i: int| 0 <= i < calls.len() ==> #[trigger] task_moved(ts[i], ts[i + 1], calls[i], gots[i])
}

/// Over a task's life, once started it stays started, once done it stays
/// done, and it is done exactly when it was done at the start or an
/// earlier call returned a result.
pub proof fn lemma_task_life<A, R>(ts: Seq<Task<A, R>>, calls: Seq<TaskCall>, gots: Seq<bool>, a: int, b: int)
    requires
        task_life(ts, calls, gots),
        0 <= a <= b <= calls.len(),
    ensures
        ts[a].receiver() is Some ==> ts[b].receiver() is Some,
        ts[a].finished() ==> ts[b].finished(),
        ts[b].finished() <==> (ts[a].finished() || exists|i: int| a <= i < b && #[trigger] gots[i]),
    decreases b - a,
{
    if b > a {
        lemma_task_life(ts, calls, gots, a, b - 1);
        let i = b - 1;
        assert(task_moved(ts[i], ts[i + 1], calls[i], gots[i]));
        if ts[b].finished() && !ts[a].finished() {
            if !ts[i].finished() {
                assert(gots[i]);
            } else {
                let j = choose|j: int| a <= j < i && #[trigger] gots[j];
                assert(a <= j < b && gots[j]);
            }
        }
        if exists|j: int| a <= j < b && #[trigger] gots[j] {
            let j = choose|j: int| a <= j < b && #[trigger] gots[j];
            if j < i {
                assert(a <= j < i && gots[j]);
            }
        }
    }
}

/// Over a task's life, after a call returned its result, no later poll or
/// start returns one: only a wait can return a result again, and whether
/// it does rests on what the wait's receiver gives. So a task whose result
/// is only polled for hands it out at most once.
pub proof fn lemma_one_result<A, R>(ts: Seq<Task<A, R>>, calls: Seq<TaskCall>, gots: Seq<bool>, a: int, b: int)
    requires
        task_life(ts, calls, gots),
        0 <= a < b < calls.len(),
        gots[a],
        gots[b],
    ensures
        calls[b] == TaskCall::Block,
{
    lemma_task_life(ts, calls, gots, a, b);
    assert(a <= a < b && gots[a]);
    assert(task_moved(ts[b], ts[b + 1], calls[b], gots[b]));
}

/// A task hands out its result once to a poll: after a poll or a wait that
/// took a result, a poll gives nothing and leaves the task as it is.
pub proof fn lemma_result_taken_once<A, R, T, G1: FnOnce(&R) -> Option<T>, G2: FnOnce(&R) -> Option<T>>(
    before: Task<A, R>,
    mid: Task<A, R>,
    after: Task<A, R>,
    first: Option<T>,
    second: Option<T>,
    skip_first: bool,
    recv1: G1,
    recv2: G2,
)
    requires
        task_received(before, mid, first, skip_first, recv1),
        first is Some,
        task_received(mid, after, second, true, recv2),
    ensures
        second is None,
        after == mid,
{
}

/// Starting a task keeps it started once it is, starts it when it held its
/// work, and leaves it done or not as it was.
pub proof fn lemma_start_keeps<A, R, F: FnOnce(A) -> R>(before: Task<A, R>, after: Task<A, R>, spawn: F)
    requires
        task_started(before, after, spawn),
    ensures
        before.receiver() is Some ==> after.receiver() is Some,
        before.pending() is Some ==> after.receiver() is Some,
        after.finished() == before.finished(),
{
}

/// Asking a task for its result keeps it started or not as it was; a done
/// task stays done, and a task becomes done only when a result came.
pub proof fn lemma_receive_keeps<A, R, T, G: FnOnce(&R) -> Option<T>>(
    before: Task<A, R>,
    after: Task<A, R>,
    res: Option<T>,
    skip_done: bool,
    recv: G,
)
    requires
        task_received(before, after, res, skip_done, recv),
    ensures
        after.receiver() == before.receiver(),
        before.finished() ==> after.finished(),
        after.finished() ==> before.finished() || res is Some,
        res is Some ==> after.finished(),
{
}

/// The tasks that are not done, in order.
pub open spec fn unfinished<A, R>(tasks: Seq<Task<A, R>>) -> Seq<Task<A, R>> {
    tasks.filter(|t: Task<A, R>| !t.finished())
}

/// How many queued tasks a pool starts: as many as free slots allow, and
/// no more than are queued.
pub open spec fn start_count(queued: nat, kept: nat, max: nat) -> nat {
    if max >= kept + queued {
        queued
    } else if max >= kept {
        (max - kept) as nat
    } else {
        0
    }
}

/// The pool's state after rebalancing: done tasks leave the active list,
/// which keeps its order, and the first queued tasks are started and join
/// its end until `max` tasks are active or the queue is empty.
pub open spec fn rebalanced<A, R, F: Fn(A) -> R>(
    active_before: Seq<Task<A, R>>,
    queue_before: Seq<Task<A, R>>,
    max: nat,
    active_after: Seq<Task<A, R>>,
    queue_after: Seq<Task<A, R>>,
    spawn: F,
) -> bool {
    let kept = unfinished(active_before);
    let k = start_count(queue_before.len(), kept.len(), max);
    &&& active_after.len() == kept.len() + k
    &&& active_after.subrange(0, kept.len() as int) == kept
    &&& forall|i: int|
        0 <= i < k ==> #[trigger] task_started(
            queue_before[i],
            active_after[kept.len() + i],
            spawn,
        )
    &&& queue_after == queue_before.skip(k as int)
}

/// Runs queued tasks, at most `max` of them at once, in the order they
/// were queued.
pub struct TaskPool<A, R> {
    queue: VecDeque<Task<A, R>>,
    active: Vec<Task<A, R>>,
    max: u32,
}

impl<A, R> TaskPool<A, R> {
    /// The tasks waiting to start, oldest first.
    pub closed spec fn queued(&self) -> Seq<Task<A, R>> {
        self.queue@
    }

    /// The tasks started and not yet dropped, in start order.
    pub closed spec fn running(&self) -> Seq<Task<A, R>> {
        self.active@
    }

    /// The most tasks that may run at once.
    pub closed spec fn limit(&self) -> nat {
        self.max as nat
    }

    /// Well-formedness: no more tasks run than the limit allows.
    pub open spec fn wf(&self) -> bool {
        &&& self.running().len() <= self.limit()
        &&& forall|i: int| 0 <= i < self.queued().len() ==> !(#[trigger] self.queued()[i]).finished()
    }

    /// No task of the pool that has started is done: a task leaves the pool
    /// in the same call that took its result.
    pub open spec fn none_done(&self) -> bool {
        forall|i: int| 0 <= i < self.running().len() ==> !(#[trigger] self.running()[i]).finished()
    }

    /// An empty pool that runs at most `max` tasks at once.
    pub fn new(max: u32) -> (p: Self)
        ensures
            p.queued() == Seq::<Task<A, R>>::empty(),
            p.running() == Seq::<Task<A, R>>::empty(),
            p.limit() == max,
            p.wf(),
    {
        TaskPool { queue: VecDeque::new(), active: Vec::new(), max: max }
    }

    /// Queues a piece of work, then rebalances.
    pub fn exec<F: Fn(A) -> R>(&mut self, action: A, spawn: &F)
        requires
            old(self).wf(),
            forall|a: A| #[trigger] spawn.requires((a,)),
        ensures
            final(self).wf(),
            final(self).none_done(),
            final(self).limit() == old(self).limit(),
            exists|t: Task<A, R>|
                #![trigger old(self).queued().push(t)]
                t.pending() == Some(action) && t.receiver() is None && !t.finished()
                && rebalanced(
                    old(self).running(),
                    old(self).queued().push(t),
                    old(self).limit(),
                    final(self).running(),
                    final(self).queued(),
                    *spawn,
                ),
    {
        let t = Task::new(action);
        let ghost tg = t;
        self.queue.push_back(t);
        self.adjust(spawn);
        assert(rebalanced(
            old(self).running(),
            old(self).queued().push(tg),
            old(self).limit(),
            self.running(),
            self.queued(),
            *spawn,
        ));
    }

    /// Drops done tasks from the active list and starts queued tasks in
    /// their place.
    pub fn adjust<F: Fn(A) -> R>(&mut self, spawn: &F)
        requires
            old(self).wf(),
            forall|a: A| #[trigger] spawn.requires((a,)),
        ensures
            final(self).wf(),
            final(self).none_done(),
            final(self).limit() == old(self).limit(),
            rebalanced(
                old(self).running(),
                old(self).queued(),
                old(self).limit(),
                final(self).running(),
                final(self).queued(),
                *spawn,
            ),
    {
        let ghost orig = self.active@;
        let ghost pred = |t: Task<A, R>| !t.finished();
        let mut rest: Vec<Task<A, R>> = Vec::new();
        std::mem::swap(&mut rest, &mut self.active);
        let mut kept: Vec<Task<A, R>> = Vec::new();
        let ghost mut taken: int = 0;
        while rest.len() > 0
            invariant
                rest@ == orig.skip(taken),
                0 <= taken <= orig.len(),
                kept@ == orig.take(taken).filter(pred),
                pred == (|t: Task<A, R>| !t.finished()),
            decreases rest@.len(),
        {
            let t = rest.remove(0);
            proof {
                reveal_with_fuel(Seq::filter, 1);
                assert(orig.take(taken + 1).drop_last() =~= orig.take(taken));
                assert(orig.take(taken + 1).last() == t);
                taken = taken + 1;
                assert(rest@ =~= orig.skip(taken));
            }
            if !t.done {
                kept.push(t);
            }
        }
        proof {
            assert(orig.take(taken) =~= orig);
            orig.lemma_filter_len(pred);
        }
        self.active = kept;
        let ghost kept_view = self.active@;
        let ghost queue0 = self.queue@;
        assert(queue0 == old(self).queued());
        assert(kept_view.len() <= self.max);
        let slots: u32 = self.max - (self.active.len() as u32);
        let mut n: u32 = 0;
        let ghost mut started: nat = 0;
        while n < slots
            invariant
                n <= slots,
                slots == self.max - kept_view.len(),
                kept_view.len() <= self.max,
                started <= n,
                started <= queue0.len(),
                started < n ==> started == queue0.len(),
                self.active@.len() == kept_view.len() + started,
                self.active@.subrange(0, kept_view.len() as int) == kept_view,
                forall|i: int|
                    0 <= i < started ==> #[trigger] task_started(
                        queue0[i],
                        self.active@[kept_view.len() + i],
                        *spawn,
                    ),
                self.queue@ == queue0.skip(started as int),
                forall|a: A| #[trigger] spawn.requires((a,)),
            decreases slots - n,
        {
            match self.queue.pop_front() {
                Some(task) => {
                    let mut task = task;
                    let ghost before = task;
                    task.start(spawn);
                    let ghost old_active = self.active@;
                    self.active.push(task);
                    proof {
                        assert(before == queue0[started as int]);
                        assert(self.active@.subrange(0, kept_view.len() as int) =~= kept_view);
                        assert forall|i: int| 0 <= i < started + 1 implies #[trigger] task_started(
                            queue0[i],
                            self.active@[kept_view.len() + i],
                            *spawn,
                        ) by {
                            if i < started {
                                assert(self.active@[kept_view.len() + i] == old_active[kept_view.len() + i]);
                            }
                        }
                        started = started + 1;
                        assert(self.queue@ =~= queue0.skip(started as int));
                    }
                },
                None => {},
            }
            n = n + 1;
        }
        proof {
            assert(started == start_count(queue0.len(), kept_view.len(), self.max as nat));
            assert forall|i: int| 0 <= i < self.queue@.len() implies !(#[trigger] self.queue@[i]).finished() by {
                assert(self.queue@[i] == queue0[i + started]);
            }
            assert forall|i: int| 0 <= i < self.active@.len() implies !(#[trigger] self.active@[i]).finished() by {
                if i < kept_view.len() {
                    assert(self.active@.subrange(0, kept_view.len() as int)[i] == self.active@[i]);
                    orig.lemma_filter_pred(pred, i);
                } else {
                    let j = i - kept_view.len();
                    assert(task_started(queue0[j], self.active@[kept_view.len() + j], *spawn));
                }
            }
        }
    }

    /// Collects the results that have arrived, in start order, then
    /// rebalances.
    pub fn poll<T, F: Fn(A) -> R, G: Fn(&R) -> Option<T>>(&mut self, try_recv: &G, spawn: &F) -> (res: Vec<T>)
        requires
            old(self).wf(),
            forall|a: A| #[trigger] spawn.requires((a,)),
            forall|r: &R| #[trigger] try_recv.requires((r,)),
        ensures
            final(self).wf(),
            final(self).none_done(),
            final(self).limit() == old(self).limit(),
            exists|polled: Seq<Task<A, R>>, outs: Seq<Option<T>>| {
                &&& #[trigger] all_received(old(self).running(), polled, outs, *try_recv)
                &&& res@ == #[trigger] somes(outs)
                &&& rebalanced(
                    polled,
                    old(self).queued(),
                    old(self).limit(),
                    final(self).running(),
                    final(self).queued(),
                    *spawn,
                )
            },
    {
        let mut basket: Vec<T> = Vec::new();
        let ghost mut outs: Seq<Option<T>> = Seq::empty();
        let ghost orig = self.active@;
        let ghost queue0 = self.queue@;
        assert forall|j: int| 0 <= j < queue0.len() implies !(#[trigger] queue0[j]).finished() by {
            assert(old(self).queued()[j] == queue0[j]);
        }
        let ghost max0 = self.max;
        let n = self.active.len();
        let mut i: usize = 0;
        while i < n
            invariant
                n == self.active@.len(),
                n == orig.len(),
                i <= n,
                outs.len() == i,
                forall|j: int| i <= j < n ==> self.active@[j] == orig[j],
                forall|j: int| 0 <= j < i ==> #[trigger] task_received(
                    orig[j],
                    self.active@[j],
                    outs[j],
                    true,
                    *try_recv,
                ),
                basket@ == somes(outs),
                forall|r: &R| #[trigger] try_recv.requires((r,)),
                self.active@.len() <= self.max,
                self.queue@ == queue0,
                forall|j: int| 0 <= j < queue0.len() ==> !(#[trigger] queue0[j]).finished(),
                self.max == max0,
            decreases n - i,
        {
            let mut task = self.active.remove(i);
            let out = task.poll(|r: &R| -> (o: Option<T>)
                requires
                    try_recv.requires((r,)),
                ensures
                    try_recv.ensures((r,), o),
                { try_recv(r) });
            let ghost prev = self.active@;
            self.active.insert(i, task);
            proof {
                assert(somes(outs.push(out)) == somes(outs) + match out {
                    Some(v) => seq![v],
                    None => Seq::<T>::empty(),
                }) by {
                    assert(outs.push(out).drop_last() =~= outs);
                }
                outs = outs.push(out);
            }
            match out {
                Some(v) => {
                    basket.push(v);
                },
                None => {},
            }
            proof {
                assert(basket@ =~= somes(outs));
            }
            i = i + 1;
        }
        let ghost polled = self.active@;
        self.adjust(spawn);
        assert(all_received(orig, polled, outs, *try_recv));
        assert(rebalanced(
            polled,
            queue0,
            max0 as nat,
            self.running(),
            self.queued(),
            *spawn,
        ));
        assert(forall|j: int| 0 <= j < polled.len() ==> #[trigger] task_received(
            orig[j],
            polled[j],
            outs[j],
            true,
            *try_recv,
        ));
        basket
    }

    /// Drops every task that has not started yet.
    pub fn clear_queue(&mut self)
        requires
            old(self).wf(),
        ensures
            final(self).wf(),
            final(self).queued() == Seq::<Task<A, R>>::empty(),
            final(self).running() == old(self).running(),
            final(self).limit() == old(self).limit(),
    {
        self.queue.clear();
    }
}

/// Each of `polled` is the matching one of `before` after polling with
/// `try_recv`, and `outs` holds what each poll gave.
pub open spec fn all_received<A, R, T, G: FnOnce(&R) -> Option<T>>(
    before: Seq<Task<A, R>>,
    polled: Seq<Task<A, R>>,
    outs: Seq<Option<T>>,
    try_recv: G,
) -> bool {
    &&& polled.len() == before.len()
    &&& outs.len() == before.len()
    &&& forall|i: int| 0 <= i < polled.len() ==> #[trigger] task_received(
        before[i],
        polled[i],
        outs[i],
        true,
        try_recv,
    )
}

/// The values in a sequence of optional values, in order.
pub open spec fn somes<T>(outs: Seq<Option<T>>) -> Seq<T>
    decreases outs.len(),
{
    if outs.len() == 0 {
        Seq::empty()
    } else {
        somes(outs.drop_last()) + match outs.last() {
            Some(v) => seq![v],
            None => Seq::<T>::empty(),
        }
    }
}

} // verus!
