//! Making tasks ready: the ready queue, the handle that puts one task on it,
//! and the register that keeps one such handle for an interrupt to invoke.

use crate::queue::{
    id_capacity, id_queue_is_full, id_queue_len, new_id_queue, pop_id, push_id, queued_ids,
    MAX_QUEUE_CAPACITY,
};
use crate::task::TaskId;
use crossbeam_queue::ArrayQueue;
use vstd::prelude::*;

verus! {

/// What a ready queue holds, as a mathematical value.
#[verifier::ext_equal]
pub struct ReadyState {
    /// The numbers that wait, oldest first.
    pub ids: Seq<u64>,
    /// How many numbers the queue has room for.
    pub capacity: nat,
}

impl ReadyState {
    /// Whether the queue has no room left.
    pub open spec fn full(self) -> bool {
        self.ids.len() >= self.capacity
    }

    /// The queue with `id` behind the numbers that wait.
    pub open spec fn pushed(self, id: u64) -> ReadyState {
        ReadyState { ids: self.ids.push(id), ..self }
    }

    /// The queue without the number that has waited longest.
    pub open spec fn popped(self) -> ReadyState {
        ReadyState { ids: self.ids.drop_first(), ..self }
    }

    /// The queue after `woken` has been invoked, if it is a waker.
    pub open spec fn woken(self, woken: Option<Waker>) -> ReadyState {
        match woken {
            Some(waker) => self.pushed(waker.task.0),
            None => self,
        }
    }
}

/// The bounded queue of the numbers of tasks that are to be resumed.
pub struct ReadyQueue {
    ids: ArrayQueue<u64>,
}

impl View for ReadyQueue {
    type V = ReadyState;

    closed spec fn view(&self) -> ReadyState {
        ReadyState { ids: queued_ids(self.ids), capacity: id_capacity(self.ids) }
    }
}

impl ReadyQueue {
    /// An empty queue with room for `capacity` numbers.
    pub fn new(capacity: usize) -> (queue: Self)
        requires
            0 < capacity <= MAX_QUEUE_CAPACITY,
        ensures
            queue@ == (ReadyState { ids: Seq::<u64>::empty(), capacity: capacity as nat }),
    {
        ReadyQueue { ids: new_id_queue(capacity) }
    }

    /// Appends `id`, or hands it back when the queue is full.
    pub fn push(&mut self, id: TaskId) -> (r: Result<(), TaskId>)
        ensures
            !old(self)@.full() ==> r.is_ok() && final(self)@ == old(self)@.pushed(id.0),
            old(self)@.full() ==> r == Err::<(), TaskId>(id) && final(self)@ == old(self)@,
    {
        match push_id(&mut self.ids, id.0) {
            Ok(_) => Ok(()),
            Err(_) => Err(id),
        }
    }

    /// Removes and returns the number that has waited longest.
    pub fn pop(&mut self) -> (r: Option<TaskId>)
        ensures
            old(self)@.ids.len() == 0 ==> r.is_none() && final(self)@ == old(self)@,
            old(self)@.ids.len() > 0 ==> r == Some(TaskId(old(self)@.ids[0])) && final(self)@
                == old(self)@.popped(),
    {
        match pop_id(&mut self.ids) {
            Some(id) => Some(TaskId(id)),
            None => None,
        }
    }

    /// How many numbers wait.
    pub fn len(&self) -> (n: usize)
        ensures
            n == self@.ids.len(),
    {
        id_queue_len(&self.ids)
    }

    /// Whether no number waits.
    pub fn is_empty(&self) -> (r: bool)
        ensures
            r == (self@.ids.len() == 0),
    {
        id_queue_len(&self.ids) == 0
    }

    /// Whether the queue has no room left.
    pub fn is_full(&self) -> (r: bool)
        ensures
            r == self@.full(),
    {
        id_queue_is_full(&self.ids)
    }
}

/// The handle that makes one task ready. Copies of it are interchangeable.
#[derive(Clone, Copy, Debug, PartialEq, Eq, Structural)]
pub struct Waker {
    pub task: TaskId,
}

impl Waker {
    /// The handle of the task numbered `task`.
    pub fn new(task: TaskId) -> (waker: Self)
        ensures
            waker.task == task,
    {
        Waker { task }
    }

    /// Puts the task's number on the ready queue. A ready queue without room
    /// is a fault of the kernel, so the caller rules it out.
    pub fn wake(&self, ready: &mut ReadyQueue)
        requires
            !old(ready)@.full(),
        ensures
            final(ready)@ == old(ready)@.pushed(self.task.0),
    {
        let _ = ready.push(self.task);
    }
}

/// A slot for at most one waker. Registering replaces what the slot held.
pub struct NotificationRegister {
    slot: Option<Waker>,
}

impl View for NotificationRegister {
    type V = Option<Waker>;

    /// The waker in the slot, if any.
    closed spec fn view(&self) -> Option<Waker> {
        self.slot
    }
}

impl NotificationRegister {
    /// An empty register.
    pub fn new() -> (register: Self)
        ensures
            register@.is_none(),
    {
        NotificationRegister { slot: None }
    }

    /// Puts `waker` in the slot, in place of any waker held before.
    pub fn register(&mut self, waker: &Waker)
        ensures
            final(self)@ == Some(*waker),
    {
        self.slot = Some(*waker);
    }

    /// Empties the slot and returns what it held.
    pub fn take(&mut self) -> (taken: Option<Waker>)
        ensures
            taken == old(self)@,
            final(self)@.is_none(),
    {
        self.slot.take()
    }

    /// Whether a waker is in the slot.
    pub fn is_registered(&self) -> (r: bool)
        ensures
            r == self@.is_some(),
    {
        self.slot.is_some()
    }

    /// Empties the slot and invokes the waker it held, once. With an empty
    /// slot nothing happens.
    pub fn wake(&mut self, ready: &mut ReadyQueue)
        requires
            old(self)@.is_some() ==> !old(ready)@.full(),
        ensures
            final(self)@.is_none(),
            final(ready)@ == old(ready)@.woken(old(self)@),
    {
        if let Some(waker) = self.take() {
            waker.wake(ready);
        }
    }
}

} // verus!
