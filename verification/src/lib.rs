//! The concurrency core of a small kernel: a cooperative task executor and
//! the bridge that carries keyboard scancodes from the interrupt handler to
//! the task that consumes them.
//!
//! Every operation takes its objects by exclusive reference and its contract
//! describes one uninterrupted step. A kernel that shares these objects with
//! an interrupt handler has to make each call atomic with respect to
//! interrupts.
//!
//! - [`task`]: task numbers, the shape of a resumable computation, and below
//!   it the ready queue and wakers, the executor, and the keyboard bridge
//!   with the task that shows what is typed.
//! - [`queue`]: the bounded queues that the ready queue and the bridge rest
//!   on.
//! - [`decoder`]: the scancode decoder.
//! - [`console`]: the text that waits to be shown.

pub mod console;
pub mod decoder;
pub mod queue;
pub mod task;
