use std::collections::{HashSet, VecDeque};
use vstd::prelude::*;

verus! {

broadcast use vstd::std_specs::hash::group_hash_axioms;

/// What the executor loop does after draining the ready queue.
#[derive(Debug, Clone, Copy, PartialEq, Eq, Structural)]
pub enum LoopAction {
    /// Drain the ready queue again.
    Continue,
    /// Nothing ran: wait for readiness events, with this timeout in
    /// milliseconds (`None`: no timeout).
    WaitForEvents(Option<u64>),
    /// Every spawned task has finished.
    Exit,
}

/// The timeout, in milliseconds, of the executor's wait when a drain found
/// no work.
pub const IDLE_WAIT_MS: u64 = 10;

/// The spawned tasks, by id: ids are handed out in order from zero, and
/// each spawned id is either unfinished (live) or finished, never both.
pub struct TaskSet {
    live: HashSet<usize>,
    next_id: usize,
    finished: Ghost<Set<usize>>,
}

impl TaskSet {
    #[verifier::type_invariant]
    spec fn ids_partitioned(&self) -> bool {
        &&& self.live@.finite()
        &&& forall|id: usize| #[trigger] self.live@.contains(id) ==> id < self.next_id
        &&& forall|id: usize|
            #[trigger] self.finished@.contains(id) ==> id < self.next_id && !self.live@.contains(
                id,
            )
        &&& forall|id: usize|
            id < self.next_id ==> #[trigger] self.live@.contains(id) || self.finished@.contains(id)
    }

    /// The ids of the spawned tasks that have not finished.
    pub closed spec fn live(&self) -> Set<usize> {
        self.live@
    }

    /// The ids of the tasks that finished.
    pub closed spec fn finished(&self) -> Set<usize> {
        self.finished@
    }

    /// How many tasks were spawned: their ids are `0..spawned()`.
    pub closed spec fn spawned(&self) -> nat {
        self.next_id as nat
    }

    /// No task spawned yet.
    pub fn new() -> (t: Self)
        ensures
            t.live() == Set::<usize>::empty(),
            t.finished() == Set::<usize>::empty(),
            t.spawned() == 0,
    {
        TaskSet { live: HashSet::new(), next_id: 0, finished: Ghost(Set::empty()) }
    }

    /// What the invariant gives callers: every spawned id is either live or
    /// finished, never both, and there are finitely many live ids.
    pub fn partition(&self)
        ensures
            self.live().finite(),
            forall|id: usize| #[trigger] self.live().contains(id) ==> id < self.spawned(),
            forall|id: usize|
                #[trigger] self.finished().contains(id) ==> id < self.spawned()
                    && !self.live().contains(id),
            forall|id: usize|
                id < self.spawned() ==> #[trigger] self.live().contains(id)
                    || self.finished().contains(id),
    {
        proof {
            use_type_invariant(self);
        }
    }

    /// The number of unfinished tasks.
    pub fn count(&self) -> (n: usize)
        ensures
            n == self.live().len(),
    {
        self.live.len()
    }

    /// Whether the task `id` is spawned and unfinished.
    pub fn is_live(&self, id: usize) -> (b: bool)
        ensures
            b == self.live().contains(id),
    {
        self.live.contains(&id)
    }

    /// The id the next spawned task receives.
    pub fn next_id(&self) -> (id: usize)
        ensures
            id == self.spawned(),
    {
        self.next_id
    }

    /// The set after one more task is spawned, and that task's id.
    pub fn spawn_one(self) -> (r: (Self, usize))
        requires
            self.spawned() < usize::MAX,
        ensures
            r.1 == self.spawned(),
            r.0.live() == self.live().insert(r.1),
            r.0.finished() == self.finished(),
            r.0.spawned() == self.spawned() + 1,
    {
        proof {
            use_type_invariant(&self);
        }
        let TaskSet { mut live, next_id, finished } = self;
        live.insert(next_id);
        (TaskSet { live, next_id: next_id + 1, finished }, next_id)
    }

    /// The set after the unfinished task `id` finishes.
    pub fn finish_one(self, id: usize) -> (t: Self)
        requires
            self.live().contains(id),
        ensures
            t.live() == self.live().remove(id),
            t.finished() == self.finished().insert(id),
            t.spawned() == self.spawned(),
    {
        proof {
            use_type_invariant(&self);
        }
        let TaskSet { mut live, next_id, finished } = self;
        live.remove(&id);
        TaskSet { live, next_id, finished: Ghost(finished@.insert(id)) }
    }
}

/// The executor's ready queue of `(task id, task)` entries and the set of
/// spawned tasks: tasks come out in the order they were spawned or woken,
/// entries of tasks that already finished are dropped, and the task count is
/// the number of spawned tasks that have not finished.
pub struct Scheduler<T> {
    ready: VecDeque<(usize, T)>,
    tasks: TaskSet,
}

/// The position of the first entry of `queue` whose task is in `live`, or
/// the queue's length when there is none.
pub open spec fn first_live<T>(queue: Seq<(usize, T)>, live: Set<usize>) -> int
    decreases queue.len(),
{
    if queue.len() == 0 {
        0
    } else if live.contains(queue[0].0) {
        0
    } else {
        1 + first_live(queue.drop_first(), live)
    }
}

/// `first_live` is a position of the queue, with only finished entries
/// before it, and a live one at it when it is inside the queue.
pub proof fn lemma_first_live<T>(queue: Seq<(usize, T)>, live: Set<usize>)
    ensures
        0 <= first_live(queue, live) <= queue.len(),
        forall|j: int| 0 <= j < first_live(queue, live) ==> !live.contains(#[trigger] queue[j].0),
        first_live(queue, live) < queue.len() ==> live.contains(queue[first_live(queue, live)].0),
    decreases queue.len(),
{
    if queue.len() > 0 && !live.contains(queue[0].0) {
        let rest = queue.drop_first();
        lemma_first_live(rest, live);
        assert forall|j: int| 0 <= j < first_live(queue, live) implies !live.contains(
            #[trigger] queue[j].0,
        ) by {
            if j > 0 {
                assert(queue[j] == rest[j - 1]);
            }
        }
        if first_live(queue, live) < queue.len() {
            assert(queue[first_live(queue, live)] == rest[first_live(rest, live)]);
        }
    }
}

impl<T> Scheduler<T> {
    /// The entries waiting to be polled, front first.
    pub closed spec fn queue(&self) -> Seq<(usize, T)> {
        self.ready@
    }

    /// The ids of the spawned tasks that have not finished.
    pub closed spec fn live(&self) -> Set<usize> {
        self.tasks.live()
    }

    /// The ids of the tasks that finished.
    pub closed spec fn finished(&self) -> Set<usize> {
        self.tasks.finished()
    }

    /// How many tasks were spawned: their ids are `0..spawned()`.
    pub closed spec fn spawned(&self) -> nat {
        self.tasks.spawned()
    }

    /// An empty scheduler.
    pub fn new() -> (s: Self)
        ensures
            s.queue() == Seq::<(usize, T)>::empty(),
            s.live() == Set::<usize>::empty(),
            s.finished() == Set::<usize>::empty(),
            s.spawned() == 0,
    {
        Scheduler { ready: VecDeque::new(), tasks: TaskSet::new() }
    }

    /// The number of spawned tasks that have not finished.
    pub fn task_count(&self) -> (n: usize)
        ensures
            n == self.live().len(),
    {
        self.tasks.count()
    }

    /// Whether the task `id` is spawned and unfinished.
    pub fn is_live(&self, id: usize) -> (b: bool)
        ensures
            b == self.live().contains(id),
    {
        self.tasks.is_live(id)
    }

    /// The id the next spawned task receives.
    pub fn next_id(&self) -> (id: usize)
        ensures
            id == self.spawned(),
    {
        self.tasks.next_id()
    }

    /// Adds a new task under the next id: it is queued behind the entries
    /// already waiting and counted as unfinished. At most `usize::MAX` tasks
    /// can be spawned.
    pub fn spawn(&mut self, task: T) -> (id: usize)
        requires
            old(self).spawned() < usize::MAX,
        ensures
            id == old(self).spawned(),
            final(self).queue() == old(self).queue().push((id, task)),
            final(self).live() == old(self).live().insert(id),
            final(self).finished() == old(self).finished(),
            final(self).spawned() == old(self).spawned() + 1,
            !old(self).live().contains(id) && !old(self).finished().contains(id),
            final(self).live().len() == old(self).live().len() + 1,
    {
        self.tasks.partition();
        let mut tasks = TaskSet::new();
        std::mem::swap(&mut tasks, &mut self.tasks);
        let (tasks, id) = tasks.spawn_one();
        self.tasks = tasks;
        self.ready.push_back((id, task));
        id
    }

    /// Re-queues the woken task `id` behind the entries already waiting.
    pub fn wake(&mut self, id: usize, task: T)
        ensures
            final(self).queue() == old(self).queue().push((id, task)),
            final(self).live() == old(self).live(),
            final(self).finished() == old(self).finished(),
            final(self).spawned() == old(self).spawned(),
    {
        self.ready.push_back((id, task));
    }

    /// Takes the first queued entry of an unfinished task, dropping the
    /// entries of finished tasks in front of it; `None` when no entry of an
    /// unfinished task is queued (the queue is then emptied).
    pub fn next_ready(&mut self) -> (entry: Option<(usize, T)>)
        ensures
            ({
                let k = first_live(old(self).queue(), old(self).live());
                match entry {
                    Some(e) => k < old(self).queue().len() && e == old(self).queue()[k]
                        && final(self).queue() == old(self).queue().skip(k + 1),
                    None => k == old(self).queue().len() && final(self).queue() == Seq::<
                        (usize, T),
                    >::empty(),
                }
            }),
            entry matches Some(e) ==> old(self).live().contains(e.0),
            final(self).live() == old(self).live(),
            final(self).finished() == old(self).finished(),
            final(self).spawned() == old(self).spawned(),
    {
        let ghost q0 = self.ready@;
        let ghost live = self.tasks.live();
        proof {
            lemma_first_live(q0, live);
        }
        let ghost k = first_live(q0, live);
        let len = self.ready.len();
        let mut popped: usize = 0;
        loop
            invariant
                live == self.tasks.live(),
                q0 == old(self).queue(),
                live == old(self).live(),
                self.tasks.finished() == old(self).finished(),
                self.tasks.spawned() == old(self).spawned(),
                k == first_live(q0, live),
                0 <= k <= q0.len(),
                forall|j: int| 0 <= j < k ==> !live.contains(#[trigger] q0[j].0),
                k < q0.len() ==> live.contains(q0[k].0),
                popped <= k,
                q0.len() == len,
                self.ready@ == q0.skip(popped as int),
            decreases q0.len() - popped,
        {
            let front = self.ready.pop_front();
            match front {
                None => {
                    proof {
                        assert(q0.skip(popped as int).len() == 0);
                    }
                    return None;
                },
                Some(e) => {
                    proof {
                        assert(e == q0[popped as int]);
                        assert(self.ready@ =~= q0.skip(popped as int + 1));
                    }
                    if self.tasks.is_live(e.0) {
                        return Some(e);
                    }
                    popped = popped + 1;
                },
            }
        }
    }

    /// Records that the unfinished task `id` finished: it is counted as
    /// finished, so it cannot finish again and its queued entries are
    /// dropped.
    pub fn task_finished(&mut self, id: usize)
        requires
            old(self).live().contains(id),
        ensures
            final(self).queue() == old(self).queue(),
            final(self).live() == old(self).live().remove(id),
            final(self).finished() == old(self).finished().insert(id),
            final(self).spawned() == old(self).spawned(),
            final(self).live().len() + 1 == old(self).live().len(),
    {
        self.tasks.partition();
        let mut tasks = TaskSet::new();
        std::mem::swap(&mut tasks, &mut self.tasks);
        self.tasks = tasks.finish_one(id);
    }

    /// The executor loop's decision after a drain: stop once no spawned task
    /// is unfinished, that is, once every spawned task finished, each once;
    /// otherwise, if the drain polled nothing, wait for readiness events for
    /// `IDLE_WAIT_MS`; otherwise drain again.
    pub fn after_drain(&self, work_done: bool) -> (action: LoopAction)
        ensures
            action == (if self.live().len() == 0 {
                LoopAction::Exit
            } else if !work_done {
                LoopAction::WaitForEvents(Some(IDLE_WAIT_MS))
            } else {
                LoopAction::Continue
            }),
            action == LoopAction::Exit <==> self.live() == Set::<usize>::empty(),
            action == LoopAction::Exit ==> forall|id: usize|
                id < self.spawned() ==> #[trigger] self.finished().contains(id),
    {
        self.tasks.partition();
        let n = self.tasks.count();
        proof {
            if n == 0 {
                assert(self.live() =~= Set::<usize>::empty());
                assert forall|id: usize| id < self.spawned() implies #[trigger] self.finished().contains(
                    id,
                ) by {
                    assert(self.live().contains(id) || self.finished().contains(id));
                }
            } else {
                assert(self.live() != Set::<usize>::empty());
            }
        }
        if n == 0 {
            LoopAction::Exit
        } else if !work_done {
            LoopAction::WaitForEvents(Some(IDLE_WAIT_MS))
        } else {
            LoopAction::Continue
        }
    }
}

/// Each task finishes once: a task finishing must be live, and once it
/// finished it is no longer live, so it cannot finish again and
/// `next_ready` hands out none of its queued entries.
pub proof fn lemma_finishes_once(live: Set<usize>, finished: Set<usize>, id: usize)
    requires
        live.contains(id),
        !finished.contains(id),
    ensures
        !live.remove(id).contains(id),
        finished.insert(id).contains(id),
        forall|other: usize| other != id ==> (#[trigger] live.remove(id).contains(other)
            == live.contains(other)),
{
}

} // verus!
