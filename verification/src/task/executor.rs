//! The executor: it owns the tasks, resumes those that are ready, and says
//! when the processor may halt.

use crate::task::waker::{ReadyQueue, ReadyState, Waker};
use crate::task::{Fault, Poll, Resumable, Task, TaskId};
use std::collections::BTreeMap;
use vstd::prelude::*;
use vstd::std_specs::btree::group_btree_axioms;

verus! {

/// How many entries the ready queue of an executor has room for.
pub const READY_QUEUE_CAPACITY: usize = 100;

/// What the run loop does with the processor once the ready tasks have run.
/// Interrupts are off while the executor decides.
#[derive(Clone, Copy, Debug, PartialEq, Eq, Structural)]
pub enum IdleAction {
    /// Work is waiting: turn interrupts back on and go on.
    EnableInterrupts,
    /// Nothing is waiting: turn interrupts back on and halt, in one step that
    /// no interrupt can split.
    EnableInterruptsAndHalt,
}

/// What became of one entry of the ready queue.
#[derive(Clone, Copy, Debug, PartialEq, Eq, Structural)]
pub enum Dispatch {
    /// No task has that number any more; nothing was done.
    Skipped,
    /// The task ran and waits to be woken.
    Pending,
    /// The task ran to its end and is gone.
    Done,
    /// The task failed and is gone.
    Failed(Fault),
}

/// What the executor makes of the result of resuming a task.
pub open spec fn dispatch_of(outcome: Poll<Result<(), Fault>>) -> Dispatch {
    match outcome {
        Poll::Pending => Dispatch::Pending,
        Poll::Ready(Ok(_)) => Dispatch::Done,
        Poll::Ready(Err(fault)) => Dispatch::Failed(fault),
    }
}

impl Dispatch {
    /// What the executor makes of the result of resuming a task.
    pub fn of(outcome: Poll<Result<(), Fault>>) -> (dispatch: Dispatch)
        ensures
            dispatch == dispatch_of(outcome),
    {
        match outcome {
            Poll::Pending => Dispatch::Pending,
            Poll::Ready(Ok(_)) => Dispatch::Done,
            Poll::Ready(Err(fault)) => Dispatch::Failed(fault),
        }
    }
}

/// What an executor holds, as a mathematical value.
#[verifier::ext_equal]
pub struct ExecutorState<T> {
    /// The tasks that have not finished, by number.
    pub tasks: Map<u64, Task<T>>,
    /// The wakers made so far for tasks that have not finished, by number.
    pub wakers: Map<u64, Waker>,
    /// The ready queue.
    pub ready: ReadyState,
    /// The number that the next task will get.
    pub next_id: u64,
}

impl<T> ExecutorState<T> {
    /// What holds of every executor: the numbers of its tasks have all been
    /// handed out, each task is filed under its own number, and a waker is
    /// kept only for a task that is there, and is that task's.
    pub open spec fn wf(self) -> bool {
        &&& forall|id: u64| #[trigger]
            self.tasks.contains_key(id) ==> id < self.next_id && self.tasks[id].id == TaskId(id)
        &&& forall|id: u64| #[trigger]
            self.wakers.contains_key(id) ==> self.tasks.contains_key(id) && self.wakers[id] == (
            Waker { task: TaskId(id) })
    }

    /// Whether a task can be added: a number is left to give it and the ready
    /// queue has room for it.
    pub open spec fn spawnable(self) -> bool {
        self.next_id < u64::MAX && !self.ready.full()
    }

    /// The executor after it has taken `computation` in as a new task: the
    /// task is filed under the next number, and that number is on the ready
    /// queue.
    pub open spec fn spawned(self, computation: T) -> Self {
        ExecutorState {
            tasks: self.tasks.insert(
                self.next_id,
                Task { id: TaskId(self.next_id), computation },
            ),
            wakers: self.wakers,
            ready: self.ready.pushed(self.next_id),
            next_id: (self.next_id + 1) as u64,
        }
    }

    /// What the executor decides about the processor.
    pub open spec fn idle_action(self) -> IdleAction {
        if self.ready.ids.len() == 0 {
            IdleAction::EnableInterruptsAndHalt
        } else {
            IdleAction::EnableInterrupts
        }
    }

    /// The executor after the task numbered `id` has been resumed with the
    /// result `dispatch`, leaving the computation as `resumed` and the ready
    /// queue as `ready`. A task that waits stays, with its waker kept; a task
    /// that finished or failed is removed together with its waker.
    pub open spec fn settled(self, id: TaskId, resumed: T, ready: ReadyState, dispatch: Dispatch) -> Self {
        if dispatch is Pending {
            ExecutorState {
                tasks: self.tasks.insert(id.0, Task { id, computation: resumed }),
                wakers: self.wakers.insert(id.0, Waker { task: id }),
                ready,
                next_id: self.next_id,
            }
        } else {
            ExecutorState {
                tasks: self.tasks.remove(id.0),
                wakers: self.wakers.remove(id.0),
                ready,
                next_id: self.next_id,
            }
        }
    }

    /// Whether dealing with the ready entry `id` may take the executor and
    /// its environment from `self` and `env` to `after` and `env_after`, with
    /// the result `dispatch`.
    ///
    /// A number without a task is passed over and nothing changes. Otherwise
    /// the task is resumed once, on the environment and the ready queue as
    /// they are, with the waker of that task.
    pub open spec fn turn<E>(
        self,
        env: E,
        id: TaskId,
        after: Self,
        env_after: E,
        dispatch: Dispatch,
    ) -> bool where T: Resumable<E> {
        if !self.tasks.contains_key(id.0) {
            after == self && env_after == env && dispatch == Dispatch::Skipped
        } else {
            exists|resumed: T, outcome: Poll<Result<(), Fault>>|
                {
                    &&& #[trigger] T::resumes(
                        self.tasks[id.0].computation,
                        env,
                        self.ready,
                        Waker { task: id },
                        resumed,
                        env_after,
                        after.ready,
                        outcome,
                    )
                    &&& dispatch == dispatch_of(outcome)
                    &&& after == self.settled(id, resumed, after.ready, dispatch)
                }
        }
    }

    /// Whether no entry of the ready queue is the number of a task that is
    /// still there.
    pub open spec fn ready_is_stale(self) -> bool {
        forall|i: int|
            0 <= i < self.ready.ids.len() ==> !self.tasks.contains_key(#[trigger] self.ready.ids[i])
    }

    /// The executor with the oldest entry taken off the ready queue.
    pub open spec fn popped(self) -> Self {
        ExecutorState { ready: self.ready.popped(), ..self }
    }

    /// Whether running the ready tasks for at most `turns` turns may take the
    /// executor and its environment from `self` and `env` to `after` and
    /// `env_after`, with the result `result`.
    ///
    /// Each turn takes the oldest entry off the ready queue and deals with
    /// it. The run ends when the turns are used up, when the queue is empty,
    /// or with the first task that fails, whose fault is the result.
    pub open spec fn rounds<E>(
        self,
        env: E,
        turns: nat,
        after: Self,
        env_after: E,
        result: Result<(), Fault>,
    ) -> bool where T: Resumable<E>
        decreases turns,
    {
        if turns == 0 || self.ready.ids.len() == 0 {
            after == self && env_after == env && result.is_ok()
        } else {
            exists|next: Self, env_next: E, dispatch: Dispatch|
                {
                    &&& #[trigger] self.popped().turn(
                        env,
                        TaskId(self.ready.ids[0]),
                        next,
                        env_next,
                        dispatch,
                    )
                    &&& match dispatch {
                        Dispatch::Failed(fault) => {
                            &&& after == next
                            &&& env_after == env_next
                            &&& result == Err::<(), Fault>(fault)
                        },
                        _ => next.rounds(env_next, (turns - 1) as nat, after, env_after, result),
                    }
                }
        }
    }
}

/// A cooperative scheduler for computations of type `T`.
pub struct Executor<T> {
    tasks: BTreeMap<u64, Task<T>>,
    waker_cache: BTreeMap<u64, Waker>,
    ready_queue: ReadyQueue,
    next_id: u64,
}

impl<T> View for Executor<T> {
    type V = ExecutorState<T>;

    closed spec fn view(&self) -> ExecutorState<T> {
        ExecutorState {
            tasks: self.tasks@,
            wakers: self.waker_cache@,
            ready: self.ready_queue@,
            next_id: self.next_id,
        }
    }
}

impl<T> Executor<T> {
    /// An executor without tasks.
    pub fn new() -> (executor: Self)
        ensures
            executor@.wf(),
            executor@ == (ExecutorState::<T> {
                tasks: Map::empty(),
                wakers: Map::empty(),
                ready: ReadyState { ids: Seq::empty(), capacity: READY_QUEUE_CAPACITY as nat },
                next_id: 0,
            }),
    {
        Executor {
            tasks: BTreeMap::new(),
            waker_cache: BTreeMap::new(),
            ready_queue: ReadyQueue::new(READY_QUEUE_CAPACITY),
            next_id: 0,
        }
    }

    /// The ready queue, for whoever invokes wakers from outside the executor.
    pub fn ready_queue(&mut self) -> (queue: &mut ReadyQueue)
        ensures
            queue@ == old(self)@.ready,
            final(self)@ == (ExecutorState { ready: final(queue)@, ..old(self)@ }),
    {
        &mut self.ready_queue
    }

    /// Whether a task can be added.
    pub fn can_spawn(&self) -> (r: bool)
        ensures
            r == self@.spawnable(),
    {
        self.next_id < u64::MAX && !self.ready_queue.is_full()
    }

    /// Whether a task with this number has not finished.
    pub fn has_task(&self, id: TaskId) -> (r: bool)
        ensures
            r == self@.tasks.contains_key(id.0),
    {
        broadcast use group_btree_axioms;

        self.tasks.contains_key(&id.0)
    }

    /// The waker kept for the task numbered `id`, if one has been made.
    pub fn cached_waker(&self, id: TaskId) -> (waker: Option<Waker>)
        ensures
            waker == if self@.wakers.contains_key(id.0) {
                Some(self@.wakers[id.0])
            } else {
                None
            },
    {
        broadcast use group_btree_axioms;

        match self.waker_cache.get(&id.0) {
            Some(waker) => Some(*waker),
            None => None,
        }
    }

    /// Takes `computation` in as a new task under a number never used before,
    /// and puts that number on the ready queue, so that the task gets its
    /// first turn. A ready queue without room is a fault of the kernel, so
    /// the caller rules it out.
    pub fn spawn(&mut self, computation: T) -> (id: TaskId)
        requires
            old(self)@.wf(),
            old(self)@.spawnable(),
        ensures
            final(self)@.wf(),
            id == TaskId(old(self)@.next_id),
            final(self)@ == old(self)@.spawned(computation),
    {
        broadcast use group_btree_axioms;

        let id = TaskId(self.next_id);
        self.next_id = self.next_id + 1;
        self.tasks.insert(id.0, Task::new(id, computation));
        let _ = self.ready_queue.push(id);
        proof {
            lemma_spawn_keeps_wf(old(self)@, computation);
        }
        id
    }

    /// The waker of the task numbered `id`: the one made for it before, or a
    /// new one, which is kept from now on.
    fn waker_for(&mut self, id: TaskId) -> (waker: Waker)
        requires
            old(self)@.wakers.contains_key(id.0) ==> old(self)@.wakers[id.0] == (Waker { task: id }),
        ensures
            waker == (Waker { task: id }),
            final(self)@ == (ExecutorState {
                wakers: old(self)@.wakers.insert(id.0, waker),
                ..old(self)@
            }),
    {
        broadcast use group_btree_axioms;

        match self.cached_waker(id) {
            Some(waker) => waker,
            None => {
                let waker = Waker::new(id);
                self.waker_cache.insert(id.0, waker);
                waker
            },
        }
    }

    /// Deals with one entry of the ready queue.
    ///
    /// A number without a task is passed over and nothing changes. Otherwise
    /// the task is resumed with its waker. A task that waits stays, and so
    /// does its waker; a task that finished or failed is removed together
    /// with its waker. No other task is touched.
    pub fn run_task<E>(&mut self, id: TaskId, env: &mut E) -> (dispatch: Dispatch) where
        T: Resumable<E>,

        requires
            old(self)@.wf(),
        ensures
            final(self)@.wf(),
            old(self)@.turn(*old(env), id, final(self)@, *final(env), dispatch),
    {
        broadcast use group_btree_axioms;

        match self.tasks.remove(&id.0) {
            None => {
                assert(self@ == old(self)@);
                Dispatch::Skipped
            },
            Some(mut task) => {
                assert(self@.wakers == old(self)@.wakers);
                let waker = self.waker_for(id);
                let outcome = task.computation.resume(env, &mut self.ready_queue, &waker);
                let dispatch = Dispatch::of(outcome);
                let ghost resumed = task.computation;
                match dispatch {
                    Dispatch::Pending => {
                        self.tasks.insert(id.0, task);
                    },
                    _ => {
                        self.waker_cache.remove(&id.0);
                    },
                }
                proof {
                    assert(T::resumes(
                        old(self)@.tasks[id.0].computation,
                        *old(env),
                        old(self)@.ready,
                        Waker { task: id },
                        resumed,
                        *env,
                        self@.ready,
                        outcome,
                    ));
                    assert(self@ == old(self)@.settled(id, resumed, self@.ready, dispatch));
                    lemma_turn_keeps_wf(old(self)@, *old(env), id, self@, *env, dispatch);
                }
                dispatch
            },
        }
    }

    /// Takes the oldest entry off the ready queue and deals with it as
    /// `run_task` does. With an empty queue nothing happens and `None` is
    /// returned.
    pub fn run_next_task<E>(&mut self, env: &mut E) -> (dispatch: Option<Dispatch>) where
        T: Resumable<E>,

        requires
            old(self)@.wf(),
        ensures
            final(self)@.wf(),
            match dispatch {
                None => {
                    &&& old(self)@.ready.ids.len() == 0
                    &&& final(self)@ == old(self)@
                    &&& *final(env) == *old(env)
                },
                Some(dispatch) => {
                    &&& old(self)@.ready.ids.len() > 0
                    &&& old(self)@.popped().turn(
                        *old(env),
                        TaskId(old(self)@.ready.ids[0]),
                        final(self)@,
                        *final(env),
                        dispatch,
                    )
                },
            },
    {
        match self.ready_queue.pop() {
            Some(id) => {
                assert(self@ == old(self)@.popped());
                Some(self.run_task(id, env))
            },
            None => {
                assert(self@ == old(self)@);
                None
            },
        }
    }

    /// Runs the tasks that are ready: one turn for each entry that the ready
    /// queue holds on entry, oldest first. Entries that are added meanwhile
    /// wait for the next call.
    ///
    /// Entries without a task are passed over. The first task that fails ends
    /// the call, and its fault is returned.
    pub fn run_ready_tasks<E>(&mut self, env: &mut E) -> (r: Result<(), Fault>) where
        T: Resumable<E>,

        requires
            old(self)@.wf(),
        ensures
            final(self)@.wf(),
            old(self)@.rounds(
                *old(env),
                old(self)@.ready.ids.len(),
                final(self)@,
                *final(env),
                r,
            ),
    {
        let count = self.ready_queue.len();
        let mut turn: usize = 0;
        while turn < count
            invariant
                self@.wf(),
                turn <= count,
                count == old(self)@.ready.ids.len(),
                forall|after: ExecutorState<T>, env_after: E, result: Result<(), Fault>| #[trigger]
                    self@.rounds(*env, (count - turn) as nat, after, env_after, result) ==> old(
                        self,
                    )@.rounds(*old(env), count as nat, after, env_after, result),
            decreases count - turn,
        {
            let ghost before = self@;
            let ghost env_before = *env;
            let ghost left = (count - turn) as nat;
            let dispatch = match self.run_next_task(env) {
                Some(dispatch) => dispatch,
                None => {
                    assert(before.rounds(env_before, left, self@, *env, Ok(())));
                    return Ok(());
                },
            };
            let ghost id = TaskId(before.ready.ids[0]);
            if let Dispatch::Failed(fault) = dispatch {
                assert(before.popped().turn(env_before, id, self@, *env, dispatch));
                assert(before.rounds(env_before, left, self@, *env, Err(fault)));
                return Err(fault);
            }
            proof {
                assert forall|after: ExecutorState<T>, env_after: E, result: Result<(), Fault>| #[trigger]
                    self@.rounds(
                        *env,
                        (count - (turn + 1)) as nat,
                        after,
                        env_after,
                        result,
                    ) implies old(self)@.rounds(
                    *old(env),
                    count as nat,
                    after,
                    env_after,
                    result,
                ) by {
                    assert(before.popped().turn(env_before, id, self@, *env, dispatch));
                    assert(before.rounds(env_before, left, after, env_after, result));
                }
            }
            turn = turn + 1;
        }
        assert(self@.rounds(*env, (count - turn) as nat, self@, *env, Ok(())));
        Ok(())
    }

    /// Tells the run loop what to do with the processor: halt if and only if
    /// no task is ready. The caller has turned interrupts off, so that no
    /// wakeup can fall between this decision and the halt.
    pub fn sleep_if_idle(&self) -> (action: IdleAction)
        ensures
            action == self@.idle_action(),
    {
        if self.ready_queue.is_empty() {
            IdleAction::EnableInterruptsAndHalt
        } else {
            IdleAction::EnableInterrupts
        }
    }
}

/// Taking a task in keeps the executor well formed, and the number it gives
/// the task is one that no task has.
pub proof fn lemma_spawn_keeps_wf<T>(executor: ExecutorState<T>, computation: T)
    requires
        executor.wf(),
        executor.next_id < u64::MAX,
    ensures
        executor.spawned(computation).wf(),
        !executor.tasks.contains_key(executor.next_id),
        executor.spawned(computation).next_id > executor.next_id,
{
}

/// A turn keeps the executor well formed. It hands out no number, adds no
/// task, and touches no task but the one whose number came up.
pub proof fn lemma_turn_keeps_wf<T: Resumable<E>, E>(
    executor: ExecutorState<T>,
    env: E,
    id: TaskId,
    after: ExecutorState<T>,
    env_after: E,
    dispatch: Dispatch,
)
    requires
        executor.wf(),
        executor.turn(env, id, after, env_after, dispatch),
    ensures
        after.wf(),
        after.next_id == executor.next_id,
        after.tasks.dom().subset_of(executor.tasks.dom()),
        after.tasks.remove(id.0) == executor.tasks.remove(id.0),
{
}

/// The first turn of a run of the ready tasks that has both turns and
/// entries: the executor, the environment and the result that the turn
/// leaves, from which the run goes on unless the turn failed.
pub proof fn lemma_first_turn<T: Resumable<E>, E>(
    executor: ExecutorState<T>,
    env: E,
    turns: nat,
    after: ExecutorState<T>,
    env_after: E,
    result: Result<(), Fault>,
) -> (first: (ExecutorState<T>, E, Dispatch))
    requires
        turns > 0,
        executor.ready.ids.len() > 0,
        executor.rounds(env, turns, after, env_after, result),
    ensures
        executor.popped().turn(env, TaskId(executor.ready.ids[0]), first.0, first.1, first.2),
        match first.2 {
            Dispatch::Failed(fault) => {
                &&& after == first.0
                &&& env_after == first.1
                &&& result == Err::<(), Fault>(fault)
            },
            _ => first.0.rounds(first.1, (turns - 1) as nat, after, env_after, result),
        },
{
    choose|next: ExecutorState<T>, env_next: E, dispatch: Dispatch|
        {
            &&& #[trigger] executor.popped().turn(
                env,
                TaskId(executor.ready.ids[0]),
                next,
                env_next,
                dispatch,
            )
            &&& match dispatch {
                Dispatch::Failed(fault) => {
                    &&& after == next
                    &&& env_after == env_next
                    &&& result == Err::<(), Fault>(fault)
                },
                _ => next.rounds(env_next, (turns - 1) as nat, after, env_after, result),
            }
        }
}

/// Running the ready tasks keeps the executor well formed. It hands out no
/// number and adds no task: a task that is there afterwards was there before.
pub proof fn lemma_rounds_keep_wf<T: Resumable<E>, E>(
    executor: ExecutorState<T>,
    env: E,
    turns: nat,
    after: ExecutorState<T>,
    env_after: E,
    result: Result<(), Fault>,
)
    requires
        executor.wf(),
        executor.rounds(env, turns, after, env_after, result),
    ensures
        after.wf(),
        after.next_id == executor.next_id,
        after.tasks.dom().subset_of(executor.tasks.dom()),
    decreases turns,
{
    if turns > 0 && executor.ready.ids.len() > 0 {
        let (next, env_next, dispatch) = lemma_first_turn(
            executor,
            env,
            turns,
            after,
            env_after,
            result,
        );
        let id = TaskId(executor.ready.ids[0]);
        lemma_turn_keeps_wf(executor.popped(), env, id, next, env_next, dispatch);
        if !(dispatch is Failed) {
            lemma_rounds_keep_wf(next, env_next, (turns - 1) as nat, after, env_after, result);
        }
    }
}

/// A task that has finished or failed is gone for good: should its number
/// come up again, the entry is passed over and nothing changes.
pub proof fn lemma_finished_task_is_skipped<T: Resumable<E>, E>(
    executor: ExecutorState<T>,
    env: E,
    id: TaskId,
    after: ExecutorState<T>,
    env_after: E,
    dispatch: Dispatch,
    later: ExecutorState<T>,
    env_later: E,
    dispatch_later: Dispatch,
)
    requires
        executor.tasks.contains_key(id.0),
        executor.turn(env, id, after, env_after, dispatch),
        dispatch is Done || dispatch is Failed,
        after.turn(env_after, id, later, env_later, dispatch_later),
    ensures
        !after.tasks.contains_key(id.0),
        !after.wakers.contains_key(id.0),
        dispatch_later == Dispatch::Skipped,
        later == after,
        env_later == env_after,
{
}

/// While no entry of the ready queue is the number of a task that is there,
/// running the ready tasks fails nothing and changes nothing but the queue,
/// which loses one entry for each turn.
pub proof fn lemma_stale_entries_are_skipped<T: Resumable<E>, E>(
    executor: ExecutorState<T>,
    env: E,
    turns: nat,
    after: ExecutorState<T>,
    env_after: E,
    result: Result<(), Fault>,
)
    requires
        executor.ready_is_stale(),
        executor.rounds(env, turns, after, env_after, result),
    ensures
        result.is_ok(),
        env_after == env,
        after.tasks == executor.tasks,
        after.wakers == executor.wakers,
        after.next_id == executor.next_id,
        after.ready.capacity == executor.ready.capacity,
        after.ready.ids == if turns <= executor.ready.ids.len() {
            executor.ready.ids.skip(turns as int)
        } else {
            Seq::<u64>::empty()
        },
    decreases turns,
{
    let ids = executor.ready.ids;
    if turns > 0 && ids.len() > 0 {
        let (next, env_next, dispatch) = lemma_first_turn(
            executor,
            env,
            turns,
            after,
            env_after,
            result,
        );
        assert(!executor.tasks.contains_key(ids[0]));
        assert forall|i: int| 0 <= i < next.ready.ids.len() implies !next.tasks.contains_key(
            #[trigger] next.ready.ids[i],
        ) by {
            assert(next.ready.ids[i] == ids[i + 1]);
        }
        lemma_stale_entries_are_skipped(next, env_next, (turns - 1) as nat, after, env_after, result);
    }
}

/// A wakeup that lands before the executor decides keeps the processor
/// running: with the woken task's number on the ready queue the executor does
/// not halt, and the next run of the ready tasks gives that task its turn.
/// Only an empty ready queue lets the processor halt.
pub proof fn lemma_wake_keeps_running<T: Resumable<E>, E>(
    executor: ExecutorState<T>,
    woken: Waker,
    env: E,
    after: ExecutorState<T>,
    env_after: E,
    result: Result<(), Fault>,
)
    requires
        executor.idle_action() == IdleAction::EnableInterruptsAndHalt,
        (ExecutorState { ready: executor.ready.woken(Some(woken)), ..executor }).rounds(
            env,
            1,
            after,
            env_after,
            result,
        ),
    ensures
        executor.ready.ids.len() == 0,
        (ExecutorState { ready: executor.ready.woken(Some(woken)), ..executor }).idle_action()
            == IdleAction::EnableInterrupts,
        exists|dispatch: Dispatch| #[trigger]
            executor.turn(env, woken.task, after, env_after, dispatch) && match dispatch {
                Dispatch::Failed(fault) => result == Err::<(), Fault>(fault),
                _ => result.is_ok(),
            },
{
    let awake = ExecutorState { ready: executor.ready.woken(Some(woken)), ..executor };
    assert(awake.popped() == executor);
    let (next, env_next, dispatch) = lemma_first_turn(awake, env, 1, after, env_after, result);
    assert(executor.turn(env, woken.task, after, env_after, dispatch));
}

} // verus!
