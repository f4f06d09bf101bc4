//! The bounded queues of `crossbeam_queue`, as the rest of the crate sees them.
//!
//! Nothing in this file is proved. Each function below makes one call into
//! `crossbeam_queue::ArrayQueue` and states what that call does when the
//! caller holds the queue exclusively, so that no other push or pop can fall
//! between the start and the end of the call.

use crossbeam_queue::ArrayQueue;
use vstd::prelude::*;

verus! {

/// `crossbeam_queue::ArrayQueue`, carried as an opaque value.
#[verifier::external_type_specification]
#[verifier::external_body]
#[verifier::reject_recursive_types(T)]
pub struct ExArrayQueue<T>(ArrayQueue<T>);

/// The largest capacity a queue can be asked for: `ArrayQueue::new` panics
/// when the slots of the queue, sixteen bytes each, would not fit the address
/// space.
pub const MAX_QUEUE_CAPACITY: usize = usize::MAX / 32;

/// The bytes waiting in a queue of bytes, oldest first.
pub uninterp spec fn queued_bytes(q: ArrayQueue<u8>) -> Seq<u8>;

/// The capacity a queue of bytes was created with.
pub uninterp spec fn byte_capacity(q: ArrayQueue<u8>) -> nat;

/// The numbers waiting in a queue of task numbers, oldest first.
pub uninterp spec fn queued_ids(q: ArrayQueue<u64>) -> Seq<u64>;

/// The capacity a queue of task numbers was created with.
pub uninterp spec fn id_capacity(q: ArrayQueue<u64>) -> nat;

/// `ArrayQueue::new`: an empty queue of the given capacity. The call panics
/// on a capacity of zero and on one too large to lay out, which the
/// precondition excludes.
#[verifier::external_body]
pub(crate) fn new_byte_queue(capacity: usize) -> (q: ArrayQueue<u8>)
    requires
        0 < capacity <= MAX_QUEUE_CAPACITY,
    ensures
        queued_bytes(q) == Seq::<u8>::empty(),
        byte_capacity(q) == capacity,
{
    ArrayQueue::new(capacity)
}

/// `ArrayQueue::push`: appends the byte behind those already waiting, or,
/// when the queue holds as many bytes as its capacity, leaves the queue as
/// it is and hands the byte back.
#[verifier::external_body]
pub(crate) fn push_byte(q: &mut ArrayQueue<u8>, byte: u8) -> (r: Result<(), u8>)
    ensures
        byte_capacity(*final(q)) == byte_capacity(*old(q)),
        match r {
            Ok(_) => queued_bytes(*old(q)).len() < byte_capacity(*old(q)) && queued_bytes(
                *final(q),
            ) == queued_bytes(*old(q)).push(byte),
            Err(refused) => refused == byte && queued_bytes(*old(q)).len() >= byte_capacity(
                *old(q),
            ) && queued_bytes(*final(q)) == queued_bytes(*old(q)),
        },
{
    q.push(byte)
}

/// `ArrayQueue::pop`: removes and returns the oldest byte, or returns
/// `None` and changes nothing when no byte is waiting.
#[verifier::external_body]
pub(crate) fn pop_byte(q: &mut ArrayQueue<u8>) -> (r: Option<u8>)
    ensures
        byte_capacity(*final(q)) == byte_capacity(*old(q)),
        match r {
            Some(byte) => queued_bytes(*old(q)).len() > 0 && byte == queued_bytes(*old(q))[0]
                && queued_bytes(*final(q)) == queued_bytes(*old(q)).drop_first(),
            None => queued_bytes(*old(q)).len() == 0 && queued_bytes(*final(q)) == queued_bytes(
                *old(q),
            ),
        },
{
    q.pop()
}

/// `ArrayQueue::is_full`: whether the queue holds as many bytes as its
/// capacity.
#[verifier::external_body]
pub(crate) fn byte_queue_is_full(q: &ArrayQueue<u8>) -> (r: bool)
    ensures
        r == (queued_bytes(*q).len() >= byte_capacity(*q)),
{
    q.is_full()
}

/// `ArrayQueue::new`: an empty queue of the given capacity. The call panics
/// on a capacity of zero and on one too large to lay out, which the
/// precondition excludes.
#[verifier::external_body]
pub(crate) fn new_id_queue(capacity: usize) -> (q: ArrayQueue<u64>)
    requires
        0 < capacity <= MAX_QUEUE_CAPACITY,
    ensures
        queued_ids(q) == Seq::<u64>::empty(),
        id_capacity(q) == capacity,
{
    ArrayQueue::new(capacity)
}

/// `ArrayQueue::push`: appends the number behind those already waiting, or,
/// when the queue holds as many numbers as its capacity, leaves the queue as
/// it is and hands the number back.
#[verifier::external_body]
pub(crate) fn push_id(q: &mut ArrayQueue<u64>, id: u64) -> (r: Result<(), u64>)
    ensures
        id_capacity(*final(q)) == id_capacity(*old(q)),
        match r {
            Ok(_) => queued_ids(*old(q)).len() < id_capacity(*old(q)) && queued_ids(*final(q))
                == queued_ids(*old(q)).push(id),
            Err(refused) => refused == id && queued_ids(*old(q)).len() >= id_capacity(*old(q))
                && queued_ids(*final(q)) == queued_ids(*old(q)),
        },
{
    q.push(id)
}

/// `ArrayQueue::pop`: removes and returns the oldest number, or returns
/// `None` and changes nothing when no number is waiting.
#[verifier::external_body]
pub(crate) fn pop_id(q: &mut ArrayQueue<u64>) -> (r: Option<u64>)
    ensures
        id_capacity(*final(q)) == id_capacity(*old(q)),
        match r {
            Some(id) => queued_ids(*old(q)).len() > 0 && id == queued_ids(*old(q))[0]
                && queued_ids(*final(q)) == queued_ids(*old(q)).drop_first(),
            None => queued_ids(*old(q)).len() == 0 && queued_ids(*final(q)) == queued_ids(
                *old(q),
            ),
        },
{
    q.pop()
}

/// `ArrayQueue::len`: how many numbers are waiting.
#[verifier::external_body]
pub(crate) fn id_queue_len(q: &ArrayQueue<u64>) -> (r: usize)
    ensures
        r == queued_ids(*q).len(),
{
    q.len()
}

/// `ArrayQueue::is_full`: whether the queue holds as many numbers as its
/// capacity.
#[verifier::external_body]
pub(crate) fn id_queue_is_full(q: &ArrayQueue<u64>) -> (r: bool)
    ensures
        r == (queued_ids(*q).len() >= id_capacity(*q)),
{
    q.is_full()
}

} // verus!
