//! Tasks: what identifies them, how they report progress, and how they are
//! told to run again.

use vstd::prelude::*;

pub mod executor;
pub mod keyboard;
pub mod waker;

verus! {

/// The number of a task. The executor hands each number out once.
#[derive(Clone, Copy, Debug, PartialEq, Eq, Structural)]
pub struct TaskId(pub u64);

/// What one attempt to make progress came to.
#[derive(Debug, PartialEq, Eq)]
pub enum Poll<T> {
    /// The value is there.
    Ready(T),
    /// Nothing yet; the waker that was handed over will be invoked when
    /// trying again is worthwhile.
    Pending,
}

/// A condition from which the kernel does not recover.
#[derive(Clone, Copy, Debug, PartialEq, Eq, Structural)]
pub enum Fault {
    /// A second scancode stream was asked for.
    StreamAlreadyInitialized,
    /// The scancode stream was polled on a bridge that was never set up.
    StreamNotInitialized,
    /// A task was to be made ready and the ready queue had no room.
    ReadyQueueFull,
}

impl Fault {
    /// The words the kernel halts with.
    pub fn message(&self) -> (text: &'static str)
        ensures
            text@ == match *self {
                Fault::StreamAlreadyInitialized => "ScancodeStream::new should only be called once"@,
                Fault::StreamNotInitialized => "not initialized"@,
                Fault::ReadyQueueFull => "task queue full"@,
            },
    {
        match self {
            Fault::StreamAlreadyInitialized => "ScancodeStream::new should only be called once",
            Fault::StreamNotInitialized => "not initialized",
            Fault::ReadyQueueFull => "task queue full",
        }
    }
}

/// A computation that runs in steps. Each call of `resume` runs it until it
/// finishes, fails or has to wait.
///
/// `env` is what the computation works on, `ready` the queue on which it may
/// make tasks ready, and `waker` the handle that makes this computation itself
/// ready again. A computation that returns `Poll::Pending` has left `waker`
/// with whoever it waits for.
pub trait Resumable<E>: Sized {
    /// What one call of `resume` does: whether a computation in state `before`,
    /// resumed with `waker` on `env_before` and `ready_before`, may end in
    /// state `after` with `outcome`, leaving `env_after` and `ready_after`.
    /// A computation that says nothing of itself may do anything.
    open spec fn resumes(
        before: Self,
        env_before: E,
        ready_before: waker::ReadyState,
        waker: waker::Waker,
        after: Self,
        env_after: E,
        ready_after: waker::ReadyState,
        outcome: Poll<Result<(), Fault>>,
    ) -> bool {
        true
    }

    /// Runs the computation until it finishes, fails or has to wait.
    fn resume(&mut self, env: &mut E, ready: &mut waker::ReadyQueue, waker: &waker::Waker) -> (outcome:
        Poll<Result<(), Fault>>)
        ensures
            Self::resumes(
                *old(self),
                *old(env),
                old(ready)@,
                *waker,
                *final(self),
                *final(env),
                final(ready)@,
                outcome,
            ),
    ;
}

/// A computation together with the number it runs under.
pub struct Task<T> {
    pub id: TaskId,
    pub computation: T,
}

impl<T> Task<T> {
    /// Wraps `computation` as the task numbered `id`.
    pub fn new(id: TaskId, computation: T) -> (task: Self)
        ensures
            task.id == id,
            task.computation == computation,
    {
        Task { id, computation }
    }
}

} // verus!
