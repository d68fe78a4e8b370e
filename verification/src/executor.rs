//! Cooperative task executor. With no threads underneath, all it can do is
//! poll a task and see whether it finished or has to wait. Ready tasks are
//! polled strictly in FIFO order. A task that reports pending is parked and
//! never polled again until an external wake signal re-enqueues it; a task
//! that reports completion has its identifier and storage discarded.

use vstd::prelude::*;

verus! {

/// What one poll of a task reported.
#[derive(Clone, Copy, Debug, PartialEq, Eq, Structural)]
pub enum Poll {
    Ready,
    Pending,
}

/// Shared mailbox slots through which tasks pass values to each other; an
/// interrupt handler may equally fill a slot before waking a parked task.
pub struct Board {
    pub slots: Vec<Option<u64>>,
}

impl Board {
    /// A board with `count` empty slots.
    pub fn new(count: usize) -> (b: Board)
        ensures
            b.slots@.len() == count,
            forall|k: int| 0 <= k < count ==> b.slots@[k] is None,
    {
        let mut slots: Vec<Option<u64>> = Vec::new();
        let mut i: usize = 0;
        while i < count
            invariant
                i <= count,
                slots@.len() == i,
                forall|k: int| 0 <= k < i ==> slots@[k] is None,
            decreases count - i,
        {
            slots.push(None);
            i = i + 1;
        }
        Board { slots }
    }

    pub fn slot_count(&self) -> (n: usize)
        ensures
            n == self.slots@.len(),
    {
        self.slots.len()
    }

    pub fn put(&mut self, slot: usize, value: u64)
        requires
            slot < old(self).slots@.len(),
        ensures
            final(self).slots@ == old(self).slots@.update(slot as int, Some(value)),
    {
        self.slots[slot] = Some(value);
    }

    pub fn get(&self, slot: usize) -> (r: Option<u64>)
        requires
            slot < self.slots@.len(),
        ensures
            r == self.slots@[slot as int],
    {
        self.slots[slot]
    }
}

/// A suspendable unit of work. Each poll must either finish the task or
/// leave it waiting for an external event; what it computes is the
/// implementor's business, so the method carries no contract.
pub trait KernelTask {
    fn poll(&mut self, board: &mut Board) -> Poll;
}

/// There is a task with this identifier in the store.
pub open spec fn has_task<T>(tasks: Seq<(u64, T)>, id: u64) -> bool {
    exists|k: int| 0 <= k < tasks.len() && (#[trigger] tasks[k]).0 == id
}

/// Abstract executor state: which identifiers are live, the FIFO ready
/// queue, and the identifiers polled so far in order.
#[verifier::ext_equal]
pub struct ExecutorModel {
    pub live: Set<u64>,
    pub ready: Seq<u64>,
    pub polled: Seq<u64>,
}

/// One scheduling step: the head of the ready queue is polled; a completed
/// task leaves the live set, a pending one merely stays off the queue.
pub open spec fn step_model(m: ExecutorModel, outcome: Poll) -> ExecutorModel
    recommends
        m.ready.len() > 0,
{
    ExecutorModel {
        live: if outcome is Ready {
            m.live.remove(m.ready[0])
        } else {
            m.live
        },
        ready: m.ready.drop_first(),
        polled: m.polled.push(m.ready[0]),
    }
}

/// Run steps until the ready queue empties, drawing each poll's outcome
/// from `outcomes` in order.
pub open spec fn run_model(m: ExecutorModel, outcomes: Seq<Poll>) -> ExecutorModel
    decreases outcomes.len(),
{
    if m.ready.len() == 0 || outcomes.len() == 0 {
        m
    } else {
        run_model(step_model(m, outcomes[0]), outcomes.drop_first())
    }
}

/// The cooperative executor: task storage, the FIFO ready queue, a fresh
/// identifier counter, and (for specification only) the poll history.
pub struct Executor<T> {
    pub tasks: Vec<(u64, T)>,
    pub ready: std::collections::VecDeque<u64>,
    pub next_id: u64,
    pub polled: Ghost<Seq<u64>>,
}

impl<T: KernelTask> Executor<T> {
    pub open spec fn model(self) -> ExecutorModel {
        ExecutorModel {
            live: Set::new(|id: u64| has_task(self.tasks@, id)),
            ready: self.ready@,
            polled: self.polled@,
        }
    }

    /// Task identifiers are unique and below the counter, and every queued
    /// identifier belongs to a live task, exactly once.
    pub open spec fn wf(self) -> bool {
        &&& forall|i: int, j: int|
            0 <= i < j < self.tasks@.len()
                ==> (#[trigger] self.tasks@[i]).0 != (#[trigger] self.tasks@[j]).0
        &&& forall|i: int|
            0 <= i < self.tasks@.len() ==> (#[trigger] self.tasks@[i]).0 < self.next_id
        &&& forall|i: int, j: int|
            0 <= i < j < self.ready@.len()
                ==> #[trigger] self.ready@[i] != #[trigger] self.ready@[j]
        &&& forall|i: int|
            0 <= i < self.ready@.len() ==> has_task(self.tasks@, #[trigger] self.ready@[i])
    }

    pub fn new() -> (e: Executor<T>)
        ensures
            e.wf(),
            e.tasks@.len() == 0,
            e.ready@.len() == 0,
            e.polled@.len() == 0,
            e.next_id == 0,
    {
        Executor {
            tasks: Vec::new(),
            ready: std::collections::VecDeque::new(),
            next_id: 0,
            polled: Ghost(Seq::empty()),
        }
    }

    pub fn ready_len(&self) -> (n: usize)
        ensures
            n == self.ready@.len(),
    {
        self.ready.len()
    }

    pub fn task_count(&self) -> (n: usize)
        ensures
            n == self.tasks@.len(),
    {
        self.tasks.len()
    }

    /// Enqueue a new task at the back of the ready queue under a fresh
    /// identifier. Nothing bounds the number of outstanding tasks here;
    /// in the kernel the arena does.
    pub fn spawn(&mut self, task: T) -> (id: u64)
        requires
            old(self).wf(),
            old(self).next_id < u64::MAX,
        ensures
            final(self).wf(),
            id == old(self).next_id,
            final(self).next_id == old(self).next_id + 1,
            final(self).ready@ == old(self).ready@.push(id),
            final(self).tasks@ == old(self).tasks@.push((id, task)),
            final(self).polled@ == old(self).polled@,
            final(self).model().live == old(self).model().live.insert(id),
            final(self).model().ready == old(self).model().ready.push(id),
    {
        let id = self.next_id;
        self.tasks.push((id, task));
        self.ready.push_back(id);
        self.next_id = self.next_id + 1;
        proof {
            assert forall|x: u64| has_task(self.tasks@, x)
                <==> (has_task(old(self).tasks@, x) || x == id) by {
                if has_task(self.tasks@, x) {
                    let k = choose|k: int|
                        0 <= k < self.tasks@.len() && (#[trigger] self.tasks@[k]).0 == x;
                    if k < old(self).tasks@.len() {
                        assert(old(self).tasks@[k].0 == x);
                    }
                }
                if has_task(old(self).tasks@, x) {
                    let k = choose|k: int|
                        0 <= k < old(self).tasks@.len() && (#[trigger] old(self).tasks@[k]).0 == x;
                    assert(self.tasks@[k].0 == x);
                }
                if x == id {
                    assert(self.tasks@[self.tasks@.len() - 1].0 == x);
                }
            }
            assert(final(self).model().live =~= old(self).model().live.insert(id));
        }
        id
    }

    /// An external wake signal: if the task is live and not already queued,
    /// it goes to the back of the ready queue; otherwise nothing changes.
    pub fn wake(&mut self, id: u64)
        requires
            old(self).wf(),
        ensures
            final(self).wf(),
            final(self).next_id == old(self).next_id,
            final(self).tasks@ == old(self).tasks@,
            final(self).polled@ == old(self).polled@,
            has_task(old(self).tasks@, id) && !old(self).ready@.contains(id)
                ==> final(self).ready@ == old(self).ready@.push(id),
            !(has_task(old(self).tasks@, id) && !old(self).ready@.contains(id))
                ==> final(self).ready@ == old(self).ready@,
    {
        let live = self.contains_task(id);
        let queued = self.is_queued(id);
        if live && !queued {
            self.ready.push_back(id);
        }
    }

    fn contains_task(&self, id: u64) -> (r: bool)
        ensures
            r == has_task(self.tasks@, id),
    {
        let mut i: usize = 0;
        while i < self.tasks.len()
            invariant
                i <= self.tasks@.len(),
                forall|k: int| 0 <= k < i ==> (#[trigger] self.tasks@[k]).0 != id,
            decreases self.tasks@.len() - i,
        {
            if self.tasks[i].0 == id {
                return true;
            }
            i = i + 1;
        }
        false
    }

    fn is_queued(&self, id: u64) -> (r: bool)
        ensures
            r == self.ready@.contains(id),
    {
        let mut i: usize = 0;
        while i < self.ready.len()
            invariant
                i <= self.ready@.len(),
                forall|k: int| 0 <= k < i ==> self.ready@[k] != id,
            decreases self.ready@.len() - i,
        {
            if self.ready[i] == id {
                proof {
                    assert(self.ready@.contains(id));
                }
                return true;
            }
            i = i + 1;
        }
        false
    }

    fn index_of_task(&self, id: u64) -> (idx: usize)
        requires
            has_task(self.tasks@, id),
        ensures
            idx < self.tasks@.len(),
            self.tasks@[idx as int].0 == id,
    {
        let mut i: usize = 0;
        while i < self.tasks.len()
            invariant
                i <= self.tasks@.len(),
                has_task(self.tasks@, id),
                forall|k: int| 0 <= k < i ==> (#[trigger] self.tasks@[k]).0 != id,
            decreases self.tasks@.len() - i,
        {
            if self.tasks[i].0 == id {
                return i;
            }
            i = i + 1;
        }
        proof {
            let k = choose|k: int|
                0 <= k < self.tasks@.len() && (#[trigger] self.tasks@[k]).0 == id;
            assert(false);
        }
        0
    }

    /// Pop the head of the ready queue and poll that task once. Completion
    /// discards the task's storage; pending leaves it parked, off the
    /// queue, until `wake` re-enqueues it. Returns the polled identifier
    /// and the outcome, or nothing if the queue was empty.
    pub fn step(&mut self, board: &mut Board) -> (r: Option<(u64, Poll)>)
        requires
            old(self).wf(),
        ensures
            final(self).wf(),
            final(self).next_id == old(self).next_id,
            old(self).ready@.len() == 0
                ==> r is None && final(self).model() == old(self).model() && final(self).tasks@
                    == old(self).tasks@ && final(self).ready@ == old(self).ready@ && *final(board)
                    == *old(board),
            old(self).ready@.len() > 0
                ==> (r matches Some(ip) && ip.0 == old(self).ready@[0]
                    && final(self).model() == step_model(old(self).model(), ip.1)
                    && final(self).ready@ == old(self).ready@.drop_first()
                    && final(self).polled@ == old(self).polled@.push(ip.0)),
    {
        let ghost pre = *old(self);
        let popped = self.ready.pop_front();
        match popped {
            None => None,
            Some(id) => {
                let idx = self.index_of_task_popped(id, Ghost(pre));
                let outcome = {
                    let slot = &mut self.tasks[idx];
                    slot.1.poll(board)
                };
                let ghost mid = self.tasks@;
                proof {
                    assert forall|k: int| 0 <= k < mid.len() implies (#[trigger] mid[k]).0
                        == pre.tasks@[k].0 by {}
                    lemma_has_task_same_ids(mid, pre.tasks@);
                }
                self.polled = Ghost(self.polled@.push(id));
                if let Poll::Ready = outcome {
                    self.tasks.remove(idx);
                    proof {
                        assert forall|i: int, j: int| 0 <= i < j < mid.len() implies (
                        #[trigger] mid[i]).0 != (#[trigger] mid[j]).0 by {
                            assert(pre.tasks@[i].0 != pre.tasks@[j].0);
                        }
                        lemma_task_ids_after_remove(mid, idx as int);
                        assert(self.model().live =~= step_model(pre.model(), Poll::Ready).live);
                        assert(self.model() =~= step_model(pre.model(), Poll::Ready));
                        mid.remove_ensures(idx as int);
                        assert forall|i: int, j: int| 0 <= i < j < self.tasks@.len() implies (
                        #[trigger] self.tasks@[i]).0 != (#[trigger] self.tasks@[j]).0 by {
                            let pi: int = if i < idx { i } else { i + 1 };
                            let pj: int = if j < idx { j } else { j + 1 };
                            assert(self.tasks@[i] == mid[pi] && self.tasks@[j] == mid[pj]);
                            assert(pre.tasks@[pi].0 != pre.tasks@[pj].0);
                        }
                        assert forall|i: int| 0 <= i < self.tasks@.len() implies (
                        #[trigger] self.tasks@[i]).0 < self.next_id by {
                            let pi: int = if i < idx { i } else { i + 1 };
                            assert(self.tasks@[i] == mid[pi]);
                            assert(pre.tasks@[pi].0 < pre.next_id);
                        }
                        assert forall|i: int| 0 <= i < self.ready@.len() implies has_task(
                            self.tasks@,
                            #[trigger] self.ready@[i],
                        ) by {
                            assert(self.ready@[i] == pre.ready@[i + 1]);
                            assert(has_task(pre.tasks@, pre.ready@[i + 1]));
                            assert(pre.ready@[i + 1] != pre.ready@[0]);
                            assert(has_task(mid.remove(idx as int), pre.ready@[i + 1]));
                        }
                    }
                    Some((id, Poll::Ready))
                } else {
                    proof {
                        assert(self.model().live =~= step_model(pre.model(), outcome).live);
                        assert(self.model() =~= step_model(pre.model(), outcome));
                        assert forall|i: int| 0 <= i < self.ready@.len() implies has_task(
                            self.tasks@,
                            #[trigger] self.ready@[i],
                        ) by {
                            assert(self.ready@[i] == pre.ready@[i + 1]);
                            assert(has_task(pre.tasks@, pre.ready@[i + 1]));
                        }
                        assert forall|i: int, j: int| 0 <= i < j < self.tasks@.len() implies (
                        #[trigger] self.tasks@[i]).0 != (#[trigger] self.tasks@[j]).0 by {
                            assert(pre.tasks@[i].0 != pre.tasks@[j].0);
                        }
                        assert forall|i: int| 0 <= i < self.tasks@.len() implies (
                        #[trigger] self.tasks@[i]).0 < self.next_id by {
                            assert(pre.tasks@[i].0 < pre.next_id);
                        }
                    }
                    Some((id, outcome))
                }
            },
        }
    }

    /// `index_of_task` after the head of the queue has just been popped:
    /// the queue invariant of the pre-state still guarantees the task is
    /// in the store.
    fn index_of_task_popped(&self, id: u64, pre: Ghost<Executor<T>>) -> (idx: usize)
        requires
            pre@.wf(),
            pre@.ready@.len() > 0,
            id == pre@.ready@[0],
            self.tasks@ == pre@.tasks@,
        ensures
            idx < self.tasks@.len(),
            self.tasks@[idx as int].0 == id,
    {
        proof {
            assert(has_task(pre@.tasks@, pre@.ready@[0]));
        }
        self.index_of_task(id)
    }

    /// Drain the ready queue: poll each queued task once, in FIFO order,
    /// until the queue is empty. Nothing re-enqueues during a run — wake
    /// signals come from outside — so the identifiers polled are exactly
    /// the queue contents at entry, in order, and the tasks left behind
    /// are exactly the parked ones.
    pub fn run(&mut self, board: &mut Board)
        requires
            old(self).wf(),
        ensures
            final(self).wf(),
            final(self).next_id == old(self).next_id,
            final(self).ready@.len() == 0,
            final(self).polled@ == old(self).polled@ + old(self).ready@,
            exists|outcomes: Seq<Poll>|
                outcomes.len() == old(self).ready@.len() && final(self).model() == run_model(
                    old(self).model(),
                    outcomes,
                ),
    {
        let ghost m0 = old(self).model();
        let ghost r0 = old(self).ready@;
        let ghost p0 = old(self).polled@;
        let ghost n0 = old(self).next_id;
        let ghost mut outcomes: Seq<Poll> = Seq::empty();
        while self.ready.len() > 0
            invariant
                self.wf(),
                self.next_id == n0,
                outcomes.len() <= r0.len(),
                self.ready@ == r0.skip(outcomes.len() as int),
                self.polled@ == p0 + r0.take(outcomes.len() as int),
                self.model() == run_model(m0, outcomes),
            decreases self.ready@.len(),
        {
            let stepped = self.step(board);
            proof {
                let ip = stepped->Some_0;
                lemma_run_model_snoc(m0, outcomes, ip.1);
                let n = outcomes.len() as int;
                assert(r0.skip(n).drop_first() =~= r0.skip(n + 1));
                assert(ip.0 == r0.skip(n)[0]);
                assert(r0.take(n + 1) =~= r0.take(n).push(r0[n]));
                outcomes = outcomes.push(ip.1);
            }
        }
        proof {
            assert(r0.skip(outcomes.len() as int).len() == 0);
            assert(outcomes.len() == r0.len());
            assert(r0.take(outcomes.len() as int) =~= r0);
            assert(self.model() == run_model(old(self).model(), outcomes));
        }
    }
}

/// Two stores whose entries carry the same identifiers slot for slot hold
/// the same identifiers.
proof fn lemma_has_task_same_ids<T>(a: Seq<(u64, T)>, b: Seq<(u64, T)>)
    requires
        a.len() == b.len(),
        forall|k: int| 0 <= k < a.len() ==> (#[trigger] a[k]).0 == (#[trigger] b[k]).0,
    ensures
        forall|x: u64| has_task(a, x) <==> has_task(b, x),
{
    assert forall|x: u64| has_task(a, x) <==> has_task(b, x) by {
        if has_task(a, x) {
            let k = choose|k: int| 0 <= k < a.len() && (#[trigger] a[k]).0 == x;
            assert(b[k].0 == x);
        }
        if has_task(b, x) {
            let k = choose|k: int| 0 <= k < b.len() && (#[trigger] b[k]).0 == x;
            assert(a[k].0 == x);
        }
    }
}

/// Removing the task at `idx` removes exactly its identifier from the
/// live set, provided identifiers are unique.
proof fn lemma_task_ids_after_remove<T>(tasks: Seq<(u64, T)>, idx: int)
    requires
        0 <= idx < tasks.len(),
        forall|i: int, j: int|
            0 <= i < j < tasks.len() ==> (#[trigger] tasks[i]).0 != (#[trigger] tasks[j]).0,
    ensures
        forall|x: u64|
            has_task(#[trigger] tasks.remove(idx), x) <==> (has_task(tasks, x) && x != tasks[idx].0),
{
    tasks.remove_ensures(idx);
    assert forall|x: u64|
        has_task(#[trigger] tasks.remove(idx), x) <==> (has_task(tasks, x) && x != tasks[idx].0) by {
        if has_task(tasks.remove(idx), x) {
            let k = choose|k: int|
                0 <= k < tasks.remove(idx).len() && (#[trigger] tasks.remove(idx)[k]).0 == x;
            if k < idx {
                assert(tasks[k].0 == x);
            } else {
                assert(tasks[k + 1].0 == x);
            }
        }
        if has_task(tasks, x) && x != tasks[idx].0 {
            let k = choose|k: int| 0 <= k < tasks.len() && (#[trigger] tasks[k]).0 == x;
            if k < idx {
                assert(tasks.remove(idx)[k].0 == x);
            } else {
                assert(tasks.remove(idx)[k - 1].0 == x);
            }
        }
    }
}

/// Extending the outcome list by one runs exactly one more step, as long
/// as the queue has not yet drained.
proof fn lemma_run_model_snoc(m: ExecutorModel, outcomes: Seq<Poll>, p: Poll)
    requires
        run_model(m, outcomes).ready.len() > 0,
    ensures
        run_model(m, outcomes.push(p)) == step_model(run_model(m, outcomes), p),
    decreases outcomes.len(),
{
    if m.ready.len() == 0 {
        assert(run_model(m, outcomes) == m);
        assert(false);
    } else if outcomes.len() == 0 {
        assert(outcomes.push(p)[0] == p);
        assert(outcomes.push(p).drop_first() =~= Seq::<Poll>::empty());
        assert(run_model(m, outcomes.push(p)) == run_model(step_model(m, p), Seq::empty()));
    } else {
        assert(outcomes.push(p)[0] == outcomes[0]);
        assert(outcomes.push(p).drop_first() =~= outcomes.drop_first().push(p));
        lemma_run_model_snoc(step_model(m, outcomes[0]), outcomes.drop_first(), p);
    }
}

/// If every task completes on its first poll, draining the queue polls
/// each spawned task exactly once, in FIFO order, discards them all, and
/// leaves the ready queue empty.
pub proof fn lemma_all_ready_first_poll(m: ExecutorModel, outcomes: Seq<Poll>)
    requires
        outcomes.len() == m.ready.len(),
        forall|i: int| 0 <= i < outcomes.len() ==> outcomes[i] is Ready,
    ensures
        run_model(m, outcomes).ready.len() == 0,
        run_model(m, outcomes).polled == m.polled + m.ready,
        run_model(m, outcomes).live == m.live.difference(m.ready.to_set()),
    decreases outcomes.len(),
{
    if outcomes.len() == 0 {
        assert(m.polled + m.ready =~= m.polled);
        assert(m.ready.to_set() =~= Set::<u64>::empty());
        assert(m.live.difference(m.ready.to_set()) =~= m.live);
    } else {
        let m1 = step_model(m, outcomes[0]);
        lemma_all_ready_first_poll(m1, outcomes.drop_first());
        assert(m1.polled + m1.ready =~= m.polled + m.ready);
        assert forall|x: u64|
            m1.live.difference(m1.ready.to_set()).contains(x) <==> m.live.difference(
                m.ready.to_set(),
            ).contains(x) by {
            if m.ready.to_set().contains(x) {
                let k = choose|k: int| 0 <= k < m.ready.len() && m.ready[k] == x;
                if k > 0 {
                    assert(m.ready.drop_first()[k - 1] == x);
                    assert(m1.ready.to_set().contains(x));
                }
            }
            if m1.ready.to_set().contains(x) {
                let k = choose|k: int| 0 <= k < m1.ready.len() && m1.ready[k] == x;
                assert(m.ready[k + 1] == x);
                assert(m.ready.to_set().contains(x));
            }
            if x == m.ready[0] {
                assert(m.ready.to_set().contains(x));
            }
        }
        assert(m1.live.difference(m1.ready.to_set()) =~= m.live.difference(m.ready.to_set()));
    }
}

/// A parked task — one not on the ready queue — is never polled again by
/// any amount of scheduling, however the polls turn out: only an external
/// wake can put it back in reach.
pub proof fn lemma_parked_never_polled(m: ExecutorModel, outcomes: Seq<Poll>, id: u64)
    requires
        !m.ready.contains(id),
    ensures
        ({
            let after = run_model(m, outcomes).polled;
            &&& after.len() >= m.polled.len()
            &&& after.take(m.polled.len() as int) == m.polled
            &&& !after.skip(m.polled.len() as int).contains(id)
        }),
    decreases outcomes.len(),
{
    if m.ready.len() == 0 || outcomes.len() == 0 {
        let after = run_model(m, outcomes).polled;
        assert(after.take(m.polled.len() as int) =~= m.polled);
        assert(after.skip(m.polled.len() as int) =~= Seq::<u64>::empty());
    } else {
        let head = m.ready[0];
        assert(m.ready.contains(head));
        let m1 = step_model(m, outcomes[0]);
        assert forall|k: int| 0 <= k < m1.ready.len() implies m1.ready[k] != id by {
            assert(m.ready[k + 1] == m1.ready[k]);
        }
        assert(!m1.ready.contains(id));
        lemma_parked_never_polled(m1, outcomes.drop_first(), id);
        let after = run_model(m, outcomes).polled;
        assert(run_model(m, outcomes) == run_model(m1, outcomes.drop_first()));
        assert(after.take(m1.polled.len() as int) == m1.polled);
        assert(after.take(m.polled.len() as int) =~= m.polled);
        assert forall|k: int|
            m.polled.len() <= k < after.len() implies #[trigger] after[k] != id by {
            if k >= m1.polled.len() {
                assert(after.skip(m1.polled.len() as int)[k - m1.polled.len()] == after[k]);
                assert(!after.skip(m1.polled.len() as int).contains(after[k]) || after[k] != id);
                if after[k] == id {
                    assert(after.skip(m1.polled.len() as int).contains(id));
                }
            } else {
                assert(k == m.polled.len());
                assert(after.take(m1.polled.len() as int)[k] == after[k]);
                assert(after[k] == m1.polled[k]);
                assert(m1.polled[k] == head);
            }
        }
        if after.skip(m.polled.len() as int).contains(id) {
            let k = choose|k: int|
                0 <= k < after.skip(m.polled.len() as int).len() && after.skip(
                    m.polled.len() as int,
                )[k] == id;
            assert(after[k + m.polled.len()] == id);
        }
    }
}

/// Tasks for the boot scenario: a producer completes at once, writing its
/// value to a mailbox slot; a relay waits until its source slot is filled,
/// then records the value into its destination slot and completes.
pub enum ValueTask {
    Produce { slot: usize, value: u64 },
    Relay { source: usize, dest: usize },
}

impl KernelTask for ValueTask {
    fn poll(&mut self, board: &mut Board) -> Poll {
        match self {
            ValueTask::Produce { slot, value } => {
                if *slot < board.slot_count() {
                    board.put(*slot, *value);
                }
                Poll::Ready
            },
            ValueTask::Relay { source, dest } => {
                if *source < board.slot_count() {
                    match board.get(*source) {
                        Some(v) => {
                            if *dest < board.slot_count() {
                                board.put(*dest, v);
                            }
                            Poll::Ready
                        },
                        None => Poll::Pending,
                    }
                } else {
                    Poll::Pending
                }
            },
        }
    }
}

} // verus!
