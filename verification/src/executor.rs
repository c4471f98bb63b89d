use std::collections::VecDeque;
use vstd::prelude::*;

verus! {

/// How many tasks may wait in the ready queue at once; a spawner that finds
/// the queue this full waits for room.
pub const MAX_QUEUED_TASKS: usize = 10_000;

/// What the executor's run loop does next.
pub enum RunStep<T> {
    /// Poll the task held here, queued before every other ready task.
    Poll(T),
    /// The ready queue is empty but some spawner is still alive: wait for a
    /// task to be queued.
    Wait,
    /// The ready queue is empty and no spawner is left: nothing can ever be
    /// queued again, so the run ends.
    Stop,
}

/// What became of a task handed to a spawner.
pub enum SpawnStep<T> {
    /// The task is at the back of the ready queue.
    Queued,
    /// The ready queue is full; the task is handed back, and the spawner
    /// waits for room and tries again.
    Full(T),
}

/// The abstract state of an executor: its ready queue, front first, how many
/// spawners are alive, whether the executor itself is still alive, and the
/// identity that its spawners carry.
pub struct ExecutorView<T> {
    pub ready: Seq<T>,
    pub spawners: nat,
    pub open: bool,
    pub id: int,
}

/// The ready queue of an executor together with the count of the spawners
/// that can still add to it.
///
/// Spawners hand tasks to the executor through this queue; the executor's
/// run loop takes them out in order and polls them until the queue is empty
/// and no spawner is left.
pub struct Executor<T> {
    ready_queue: VecDeque<T>,
    spawners: usize,
    open: bool,
    id: Ghost<int>,
}

/// A handle that queues tasks on an executor. Each live spawner, among them
/// the one that every task carries, is counted by its executor, and the
/// executor's run ends only once all of them are gone.
pub struct Spawner {
    executor: Ghost<int>,
}

/// A task: a future together with the spawner that queues it again when it
/// is woken.
pub struct Task<F> {
    pub future: F,
    pub spawner: Spawner,
}

/// Every state that an executor can be in: the queue never holds more than
/// `MAX_QUEUED_TASKS` tasks, and an executor that is gone holds none.
pub open spec fn valid_state<T>(s: ExecutorView<T>) -> bool {
    &&& s.ready.len() <= MAX_QUEUED_TASKS
    &&& !s.open ==> s.ready.len() == 0
}

/// The state of a fresh executor with identity `id` and its first spawner.
pub open spec fn initial_state<T>(id: int) -> ExecutorView<T> {
    ExecutorView { ready: Seq::empty(), spawners: 1, open: true, id }
}

/// One turn of the run loop: take the oldest ready task, or wait while a
/// spawner lives, or stop.
pub open spec fn run_spec<T>(s: ExecutorView<T>) -> (ExecutorView<T>, RunStep<T>) {
    if s.ready.len() > 0 {
        (
            ExecutorView { ready: s.ready.drop_first(), spawners: s.spawners, open: s.open, id: s.id },
            RunStep::Poll(s.ready[0]),
        )
    } else if s.spawners == 0 {
        (s, RunStep::Stop)
    } else {
        (s, RunStep::Wait)
    }
}

/// Handing a task to a live executor: handed back when the queue is full,
/// otherwise queued at the back.
pub open spec fn spawn_task_spec<T>(s: ExecutorView<T>, task: T) -> (ExecutorView<T>, SpawnStep<T>) {
    if s.ready.len() >= MAX_QUEUED_TASKS {
        (s, SpawnStep::Full(task))
    } else {
        (ExecutorView { ready: s.ready.push(task), spawners: s.spawners, open: s.open, id: s.id }, SpawnStep::Queued)
    }
}

/// A new spawner comes alive.
pub open spec fn add_spawner_spec<T>(s: ExecutorView<T>) -> ExecutorView<T> {
    ExecutorView { ready: s.ready, spawners: s.spawners + 1, open: s.open, id: s.id }
}

/// A spawner is dropped.
pub open spec fn drop_spawner_spec<T>(s: ExecutorView<T>) -> ExecutorView<T> {
    ExecutorView { ready: s.ready, spawners: (s.spawners - 1) as nat, open: s.open, id: s.id }
}

/// The executor is dropped: it takes no more tasks, and those still queued
/// are discarded.
pub open spec fn close_spec<T>(s: ExecutorView<T>) -> ExecutorView<T> {
    ExecutorView { ready: Seq::empty(), spawners: s.spawners, open: false, id: s.id }
}

impl<T> View for Executor<T> {
    type V = ExecutorView<T>;

    closed spec fn view(&self) -> ExecutorView<T> {
        ExecutorView { ready: self.ready_queue@, spawners: self.spawners as nat, open: self.open, id: self.id@ }
    }
}

impl<T> Executor<T> {
    #[verifier::type_invariant]
    closed spec fn inv(self) -> bool {
        valid_state(self@)
    }

    /// The decision of the executor's run loop: hands out the oldest ready
    /// task to be polled; with none ready, says to wait while a spawner is
    /// alive and to stop once none is.
    pub fn run(&mut self) -> (step: RunStep<T>)
        ensures
            (final(self)@, step) == run_spec(old(self)@),
            valid_state(final(self)@),
    {
        proof {
            use_type_invariant(&*self);
        }
        let mut queue = VecDeque::new();
        std::mem::swap(&mut queue, &mut self.ready_queue);
        let front = queue.pop_front();
        std::mem::swap(&mut queue, &mut self.ready_queue);
        match front {
            Some(task) => RunStep::Poll(task),
            None => {
                if self.spawners == 0 {
                    RunStep::Stop
                } else {
                    RunStep::Wait
                }
            },
        }
    }

    /// The executor is dropped: no task is taken any more, and the tasks still
    /// queued are handed back, oldest first, to be dropped.
    pub fn close(&mut self) -> (discarded: VecDeque<T>)
        ensures
            final(self)@ == close_spec(old(self)@),
            discarded@ == old(self)@.ready,
            valid_state(final(self)@),
    {
        let mut discarded = VecDeque::new();
        std::mem::swap(&mut discarded, &mut self.ready_queue);
        self.open = false;
        discarded
    }

    /// How many tasks are queued.
    pub fn len(&self) -> (n: usize)
        ensures
            n == self@.ready.len(),
            n <= MAX_QUEUED_TASKS,
            valid_state(self@),
    {
        proof {
            use_type_invariant(self);
        }
        self.ready_queue.len()
    }

    /// How many spawners are alive.
    pub fn spawner_count(&self) -> (n: usize)
        ensures
            n == self@.spawners,
            valid_state(self@),
    {
        proof {
            use_type_invariant(self);
        }
        self.spawners
    }

    /// Whether the executor is still alive.
    pub fn is_open(&self) -> (b: bool)
        ensures
            b == self@.open,
            valid_state(self@),
    {
        proof {
            use_type_invariant(self);
        }
        self.open
    }
}

impl Spawner {
    /// The identity of the executor that this spawner queues tasks on.
    pub closed spec fn executor_id(&self) -> int {
        self.executor@
    }

    /// A spawner of the executor with identity `id`; all spawners of an
    /// executor are alike, each counting once.
    pub closed spec fn handle(id: int) -> Spawner {
        Spawner { executor: Ghost(id) }
    }

    /// The identity that a spawner made by `handle` carries.
    pub proof fn lemma_handle_id(id: int)
        ensures
            Spawner::handle(id).executor_id() == id,
    {
    }

    /// Hands a task to the ready queue of this spawner's executor, which must
    /// still be alive; see [`SpawnStep`] for the two outcomes.
    pub fn spawn_task<T>(&self, executor: &mut Executor<T>, task: T) -> (step: SpawnStep<T>)
        requires
            self.executor_id() == old(executor)@.id,
            old(executor)@.open,
        ensures
            (final(executor)@, step) == spawn_task_spec(old(executor)@, task),
            valid_state(final(executor)@),
    {
        proof {
            use_type_invariant(&*executor);
        }
        if executor.ready_queue.len() >= MAX_QUEUED_TASKS {
            SpawnStep::Full(task)
        } else {
            let mut queue = VecDeque::new();
            std::mem::swap(&mut queue, &mut executor.ready_queue);
            queue.push_back(task);
            std::mem::swap(&mut queue, &mut executor.ready_queue);
            SpawnStep::Queued
        }
    }

    /// A second spawner for the same executor.
    pub fn clone_handle<T>(&self, executor: &mut Executor<T>) -> (s: Spawner)
        requires
            self.executor_id() == old(executor)@.id,
            old(executor)@.spawners < usize::MAX,
        ensures
            final(executor)@ == add_spawner_spec(old(executor)@),
            s == Spawner::handle(old(executor)@.id),
            valid_state(final(executor)@),
    {
        proof {
            use_type_invariant(&*executor);
        }
        executor.spawners = executor.spawners + 1;
        Spawner { executor: Ghost(self.executor@) }
    }

    /// Drops this spawner.
    pub fn release<T>(self, executor: &mut Executor<T>)
        requires
            self.executor_id() == old(executor)@.id,
            old(executor)@.spawners > 0,
        ensures
            final(executor)@ == drop_spawner_spec(old(executor)@),
            valid_state(final(executor)@),
    {
        proof {
            use_type_invariant(&*executor);
        }
        executor.spawners = executor.spawners - 1;
    }

    /// Wraps a future into a task that carries a new spawner of this
    /// executor, and hands the task to the ready queue. The executor must
    /// still be alive.
    pub fn spawn<F>(&self, executor: &mut Executor<Task<F>>, future: F) -> (step: SpawnStep<Task<F>>)
        requires
            self.executor_id() == old(executor)@.id,
            old(executor)@.open,
            old(executor)@.spawners < usize::MAX,
        ensures
            ({
                let added = add_spawner_spec(old(executor)@);
                let task = Task { future, spawner: Spawner::handle(old(executor)@.id) };
                &&& final(executor)@ == spawn_task_spec(added, task).0
                &&& step == spawn_task_spec(added, task).1
            }),
            valid_state(final(executor)@),
    {
        let spawner = self.clone_handle(executor);
        let task = Task { future, spawner };
        self.spawn_task(executor, task)
    }
}

/// An identity for a new executor. Nothing is promised about it, so no two
/// executors can be shown to share one.
proof fn fresh_executor_id() -> int {
    0
}

/// A fresh executor with an empty ready queue, and its first spawner.
pub fn new_executor_spawner<T>() -> (pair: (Executor<T>, Spawner))
    ensures
        pair.0@ == initial_state::<T>(pair.0@.id),
        pair.1.executor_id() == pair.0@.id,
        valid_state(pair.0@),
{
    let ghost id = fresh_executor_id();
    (
        Executor { ready_queue: VecDeque::new(), spawners: 1, open: true, id: Ghost(id) },
        Spawner { executor: Ghost(id) },
    )
}

/// The state after `n` turns of the run loop.
pub open spec fn runs<T>(s: ExecutorView<T>, n: nat) -> ExecutorView<T>
    decreases n,
{
    if n == 0 {
        s
    } else {
        run_spec(runs(s, (n - 1) as nat)).0
    }
}

/// A fresh executor is in a valid state, and every operation keeps an
/// executor in a valid state and keeps its identity.
pub proof fn lemma_operations_keep_valid_state<T>(s: ExecutorView<T>, task: T, id: int)
    requires
        valid_state(s),
    ensures
        valid_state(initial_state::<T>(id)),
        valid_state(run_spec(s).0) && run_spec(s).0.id == s.id,
        s.open ==> valid_state(spawn_task_spec(s, task).0) && spawn_task_spec(s, task).0.id == s.id,
        valid_state(add_spawner_spec(s)) && add_spawner_spec(s).id == s.id,
        valid_state(drop_spawner_spec(s)) && drop_spawner_spec(s).id == s.id,
        valid_state(close_spec(s)) && close_spec(s).id == s.id,
{
}

/// The run loop stops exactly when no task is ready and no spawner is
/// left; it waits exactly when no task is ready and some spawner lives.
pub proof fn lemma_run_stops_only_when_idle<T>(s: ExecutorView<T>)
    ensures
        run_spec(s).1 is Stop <==> s.ready.len() == 0 && s.spawners == 0,
        run_spec(s).1 is Wait <==> s.ready.len() == 0 && s.spawners > 0,
        run_spec(s).1 is Poll <==> s.ready.len() > 0,
{
}

/// Running drains the queue in order and hands out nothing else: the `k`-th
/// turn of the run loop polls the `k`-th queued task, and once the queued
/// tasks are out no task is polled again until one is queued anew.
pub proof fn lemma_run_hands_out_queued_tasks_in_order<T>(s: ExecutorView<T>, k: nat)
    requires
        k <= s.ready.len(),
    ensures
        runs(s, k).ready == s.ready.skip(k as int),
        runs(s, k).spawners == s.spawners,
        runs(s, k).open == s.open,
        runs(s, k).id == s.id,
        k < s.ready.len() ==> run_spec(runs(s, k)).1 == RunStep::Poll(s.ready[k as int]),
        k == s.ready.len() ==> !(run_spec(runs(s, k)).1 is Poll),
    decreases k,
{
    if k > 0 {
        lemma_run_hands_out_queued_tasks_in_order(s, (k - 1) as nat);
        let prev = runs(s, (k - 1) as nat);
        assert(prev.ready.len() > 0);
        assert(prev.ready.drop_first() =~= s.ready.skip(k as int));
    } else {
        assert(s.ready.skip(0) =~= s.ready);
    }
}

/// Tasks are polled in the order they were queued: a task queued behind
/// `n` others comes out of the run loop right after those `n`, in their
/// order.
pub proof fn lemma_tasks_run_in_queue_order<T>(s: ExecutorView<T>, task: T, k: nat)
    requires
        s.ready.len() < MAX_QUEUED_TASKS,
        k <= s.ready.len(),
    ensures
        spawn_task_spec(s, task).1 is Queued,
        runs(spawn_task_spec(s, task).0, k).ready == s.ready.push(task).skip(k as int),
        k < s.ready.len() ==> run_spec(runs(spawn_task_spec(s, task).0, k)).1 == RunStep::Poll(s.ready[k as int]),
        k == s.ready.len() ==> run_spec(runs(spawn_task_spec(s, task).0, k)).1 == RunStep::Poll(task),
{
    let s1 = spawn_task_spec(s, task).0;
    assert(s1.ready == s.ready.push(task));
    lemma_run_hands_out_queued_tasks_in_order(s1, k);
}

/// A woken task is polled again: waking queues the task's future with a new
/// spawner, and that task comes out of the run loop after the tasks queued
/// before it; when the queue is full the task is handed back and is queued
/// once the run loop has taken one task out.
pub proof fn lemma_woken_task_is_polled_again<F>(s: ExecutorView<Task<F>>, future: F)
    requires
        valid_state(s),
        s.open,
    ensures
        ({
            let added = add_spawner_spec(s);
            let task = Task { future, spawner: Spawner::handle(s.id) };
            let (s1, step) = spawn_task_spec(added, task);
            &&& step is Queued ==> run_spec(runs(s1, s.ready.len())).1 == RunStep::Poll(task)
            &&& step is Full ==> {
                let s2 = spawn_task_spec(run_spec(added).0, task);
                &&& s2.1 is Queued
                &&& run_spec(runs(s2.0, (MAX_QUEUED_TASKS - 1) as nat)).1 == RunStep::Poll(task)
            }
        }),
{
    let added = add_spawner_spec(s);
    let task = Task { future, spawner: Spawner::handle(s.id) };
    if added.ready.len() < MAX_QUEUED_TASKS {
        lemma_tasks_run_in_queue_order(added, task, s.ready.len());
    } else {
        let after = run_spec(added).0;
        assert(after.ready.len() == MAX_QUEUED_TASKS - 1);
        lemma_tasks_run_in_queue_order(after, task, (MAX_QUEUED_TASKS - 1) as nat);
    }
}

/// A spawned task carries a spawner, so the run loop cannot stop while the
/// task is alive, whether or not the queue took it.
pub proof fn lemma_spawned_task_keeps_run_alive<T>(s: ExecutorView<T>, task: T)
    ensures
        !(run_spec(spawn_task_spec(add_spawner_spec(s), task).0).1 is Stop),
{
}

/// Dropping a spawner undoes making one.
pub proof fn lemma_drop_undoes_clone<T>(s: ExecutorView<T>)
    ensures
        drop_spawner_spec(add_spawner_spec(s)) == s,
{
}

/// A full queue hands the task back unchanged; once the run loop has taken
/// one task out, the same task is queued.
pub proof fn lemma_full_queue_makes_room_after_a_poll<T>(s: ExecutorView<T>, task: T)
    requires
        valid_state(s),
        s.ready.len() == MAX_QUEUED_TASKS,
    ensures
        spawn_task_spec(s, task) == (s, SpawnStep::Full(task)),
        spawn_task_spec(run_spec(s).0, task).1 is Queued,
{
}

/// A turn of the run loop only ever takes the front task out of the queue:
/// it never changes how many spawners are alive, whether the executor is
/// alive, or its identity. A turn that finds the queue empty changes
/// nothing at all, so a run that waits keeps waiting for as long as any
/// spawner, among them those of pending tasks, is alive.
pub proof fn lemma_run_changes_only_the_queue_front<T>(s: ExecutorView<T>)
    ensures
        run_spec(s).0.spawners == s.spawners,
        run_spec(s).0.open == s.open,
        run_spec(s).0.id == s.id,
        s.ready.len() == 0 ==> run_spec(s).0 == s,
        s.ready.len() > 0 ==> run_spec(s).0.ready == s.ready.subrange(1, s.ready.len() as int),
        s.ready.len() > 0 ==> run_spec(s).1 == RunStep::Poll(s.ready[0]),
{
}

/// Waiting turns of the run loop leave the spawner count alone: after any
/// number of turns on an empty queue, dropping one of `n > 1` spawners
/// still leaves the run waiting rather than stopping.
pub proof fn lemma_waiting_run_keeps_spawners<T>(s: ExecutorView<T>, k: nat)
    requires
        s.ready.len() == 0,
        s.spawners > 1,
    ensures
        runs(s, k) == s,
        run_spec(runs(s, k)).1 is Wait,
        run_spec(drop_spawner_spec(runs(s, k))).1 is Wait,
    decreases k,
{
    if k > 0 {
        lemma_waiting_run_keeps_spawners(s, (k - 1) as nat);
    }
}

/// Handing a task to the queue only ever appends that task: it never
/// changes how many spawners are alive, whether the executor is alive, or
/// its identity. It is queued exactly when the queue has room, and a task
/// handed back is the same task, with the queue left as it was.
pub proof fn lemma_spawn_task_only_appends<T>(s: ExecutorView<T>, task: T)
    ensures
        spawn_task_spec(s, task).0.spawners == s.spawners,
        spawn_task_spec(s, task).0.open == s.open,
        spawn_task_spec(s, task).0.id == s.id,
        spawn_task_spec(s, task).1 is Queued <==> s.ready.len() < MAX_QUEUED_TASKS,
        s.ready.len() < MAX_QUEUED_TASKS ==> spawn_task_spec(s, task).0.ready.len() == s.ready.len() + 1
            && spawn_task_spec(s, task).0.ready.last() == task
            && spawn_task_spec(s, task).0.ready.subrange(0, s.ready.len() as int) == s.ready,
        s.ready.len() >= MAX_QUEUED_TASKS ==> spawn_task_spec(s, task).0 == s
            && spawn_task_spec(s, task).1 == SpawnStep::Full(task),
{
    if s.ready.len() < MAX_QUEUED_TASKS {
        assert(s.ready.push(task).subrange(0, s.ready.len() as int) =~= s.ready);
    }
}

/// Cloning a spawner adds exactly one to the count and dropping one takes
/// exactly one away; neither touches the queue, the executor's liveness or
/// its identity. Closing the executor empties the queue and marks it gone,
/// and keeps the count.
pub proof fn lemma_spawner_counting<T>(s: ExecutorView<T>)
    ensures
        add_spawner_spec(s).spawners == s.spawners + 1,
        add_spawner_spec(s).ready == s.ready,
        add_spawner_spec(s).open == s.open,
        add_spawner_spec(s).id == s.id,
        s.spawners > 0 ==> drop_spawner_spec(s).spawners + 1 == s.spawners,
        drop_spawner_spec(s).ready == s.ready,
        drop_spawner_spec(s).open == s.open,
        drop_spawner_spec(s).id == s.id,
        close_spec(s).spawners == s.spawners,
        close_spec(s).ready.len() == 0,
        !close_spec(s).open,
        close_spec(s).id == s.id,
{
}

/// A spawn adds exactly one spawner, the one the new task carries, whether
/// or not the queue took the task.
pub proof fn lemma_spawn_adds_one_spawner<T>(s: ExecutorView<T>, task: T)
    ensures
        spawn_task_spec(add_spawner_spec(s), task).0.spawners == s.spawners + 1,
{
}

/// Spawning each of `tasks` in turn, each task with a spawner of its own.
pub open spec fn spawn_all<T>(s: ExecutorView<T>, tasks: Seq<T>) -> ExecutorView<T>
    decreases tasks.len(),
{
    if tasks.len() == 0 {
        s
    } else {
        spawn_all(spawn_task_spec(add_spawner_spec(s), tasks[0]).0, tasks.drop_first())
    }
}

/// Polling a task and dropping the spawner it carries, `k` times.
pub open spec fn run_and_release<T>(s: ExecutorView<T>, k: nat) -> ExecutorView<T>
    decreases k,
{
    if k == 0 {
        s
    } else {
        drop_spawner_spec(run_spec(run_and_release(s, (k - 1) as nat)).0)
    }
}

/// Spawning tasks on a queue with room queues them all and counts one
/// spawner each.
pub proof fn lemma_spawn_all<T>(s: ExecutorView<T>, tasks: Seq<T>)
    requires
        s.ready.len() + tasks.len() <= MAX_QUEUED_TASKS,
    ensures
        spawn_all(s, tasks).ready == s.ready + tasks,
        spawn_all(s, tasks).spawners == s.spawners + tasks.len(),
        spawn_all(s, tasks).open == s.open,
    decreases tasks.len(),
{
    if tasks.len() > 0 {
        let s1 = spawn_task_spec(add_spawner_spec(s), tasks[0]).0;
        lemma_spawn_all(s1, tasks.drop_first());
        assert(s.ready.push(tasks[0]) + tasks.drop_first() =~= s.ready + tasks);
    } else {
        assert(s.ready + tasks =~= s.ready);
    }
}

/// Each poll that is followed by dropping the polled task's spawner takes
/// one task out and one spawner away.
pub proof fn lemma_run_and_release<T>(s: ExecutorView<T>, k: nat)
    requires
        k <= s.ready.len(),
        k <= s.spawners,
    ensures
        run_and_release(s, k).ready == s.ready.skip(k as int),
        run_and_release(s, k).spawners == s.spawners - k,
    decreases k,
{
    if k > 0 {
        lemma_run_and_release(s, (k - 1) as nat);
        assert(s.ready.skip((k - 1) as int).drop_first() =~= s.ready.skip(k as int));
    } else {
        assert(s.ready.skip(0) =~= s.ready);
    }
}

/// A program that spawns its tasks, drops its own spawner and lets each
/// task finish after one poll ends: the run loop stops once every task has
/// run, and not before.
pub proof fn lemma_run_ends_once_all_spawners_are_gone<T>(id: int, tasks: Seq<T>)
    requires
        tasks.len() <= MAX_QUEUED_TASKS,
    ensures
        ({
            let spawned = drop_spawner_spec(spawn_all(initial_state::<T>(id), tasks));
            &&& forall|k: nat| k < tasks.len() ==> #[trigger] run_spec(run_and_release(spawned, k)).1
                == RunStep::Poll(tasks[k as int])
            &&& run_spec(run_and_release(spawned, tasks.len())).1 is Stop
        }),
{
    let init = initial_state::<T>(id);
    lemma_spawn_all(init, tasks);
    let spawned = drop_spawner_spec(spawn_all(init, tasks));
    assert(spawned.ready =~= tasks);
    assert forall|k: nat| k < tasks.len() implies #[trigger] run_spec(run_and_release(spawned, k)).1
        == RunStep::Poll(tasks[k as int]) by {
        lemma_run_and_release(spawned, k);
    }
    lemma_run_and_release(spawned, tasks.len());
}

/// A fresh executor has no queued task, exactly one spawner (the one handed
/// out with it) and is alive, so its run loop waits until that spawner
/// queues a task or is dropped.
pub proof fn lemma_fresh_executor<T>(id: int)
    ensures
        initial_state::<T>(id).ready.len() == 0,
        initial_state::<T>(id).spawners == 1,
        initial_state::<T>(id).open,
        initial_state::<T>(id).id == id,
        run_spec(initial_state::<T>(id)).1 is Wait,
        run_spec(drop_spawner_spec(initial_state::<T>(id))).1 is Stop,
{
}

} // verus!
