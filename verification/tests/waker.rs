use kernel_tasks::queue::MAX_QUEUE_CAPACITY;
use kernel_tasks::task::waker::{NotificationRegister, ReadyQueue, Waker};
use kernel_tasks::task::TaskId;

#[test]
fn a_new_ready_queue_is_empty() {
    let mut queue = ReadyQueue::new(3);
    assert!(queue.is_empty());
    assert!(!queue.is_full());
    assert_eq!(queue.len(), 0);
    assert_eq!(queue.pop(), None);
}

#[test]
fn ready_queue_hands_numbers_out_oldest_first() {
    let mut queue = ReadyQueue::new(3);
    assert_eq!(queue.push(TaskId(30)), Ok(()));
    assert_eq!(queue.push(TaskId(10)), Ok(()));
    assert_eq!(queue.push(TaskId(20)), Ok(()));
    assert_eq!(queue.len(), 3);
    assert_eq!(queue.pop(), Some(TaskId(30)));
    assert_eq!(queue.pop(), Some(TaskId(10)));
    assert_eq!(queue.len(), 1);
    assert!(!queue.is_empty());
    assert_eq!(queue.pop(), Some(TaskId(20)));
    assert_eq!(queue.pop(), None);
    assert!(queue.is_empty());
}

#[test]
fn a_full_ready_queue_hands_the_number_back() {
    let mut queue = ReadyQueue::new(2);
    assert_eq!(queue.push(TaskId(1)), Ok(()));
    assert!(!queue.is_full());
    assert_eq!(queue.push(TaskId(2)), Ok(()));
    assert!(queue.is_full());
    assert_eq!(queue.push(TaskId(3)), Err(TaskId(3)));
    assert_eq!(queue.len(), 2);
    assert_eq!(queue.pop(), Some(TaskId(1)));
    assert!(!queue.is_full());
    assert_eq!(queue.push(TaskId(4)), Ok(()));
    assert_eq!(queue.pop(), Some(TaskId(2)));
    assert_eq!(queue.pop(), Some(TaskId(4)));
}

#[test]
fn the_same_number_may_wait_more_than_once() {
    let mut queue = ReadyQueue::new(4);
    queue.push(TaskId(5)).unwrap();
    queue.push(TaskId(5)).unwrap();
    assert_eq!(queue.len(), 2);
    assert_eq!(queue.pop(), Some(TaskId(5)));
    assert_eq!(queue.pop(), Some(TaskId(5)));
    assert_eq!(queue.pop(), None);
}

#[test]
fn a_large_ready_queue_works_like_a_small_one() {
    assert_eq!(MAX_QUEUE_CAPACITY, usize::MAX / 32);
    let mut queue = ReadyQueue::new(1 << 16);
    for id in 0..(1u64 << 16) {
        assert_eq!(queue.push(TaskId(id)), Ok(()));
    }
    assert!(queue.is_full());
    assert_eq!(queue.push(TaskId(u64::MAX)), Err(TaskId(u64::MAX)));
    assert_eq!(queue.pop(), Some(TaskId(0)));
    assert_eq!(queue.len(), (1 << 16) - 1);
}

#[test]
fn a_waker_puts_its_task_on_the_ready_queue() {
    let mut queue = ReadyQueue::new(4);
    let waker = Waker::new(TaskId(12));
    assert_eq!(waker.task, TaskId(12));
    waker.wake(&mut queue);
    let copy = waker;
    copy.wake(&mut queue);
    assert_eq!(queue.len(), 2);
    assert_eq!(queue.pop(), Some(TaskId(12)));
    assert_eq!(queue.pop(), Some(TaskId(12)));
}

#[test]
fn the_register_holds_one_waker_at_most() {
    let mut register = NotificationRegister::new();
    assert!(!register.is_registered());
    assert_eq!(register.take(), None);
    register.register(&Waker::new(TaskId(1)));
    register.register(&Waker::new(TaskId(2)));
    assert!(register.is_registered());
    assert_eq!(register.take(), Some(Waker::new(TaskId(2))));
    assert!(!register.is_registered());
    assert_eq!(register.take(), None);
}

#[test]
fn waking_the_register_invokes_its_waker_once_and_empties_it() {
    let mut register = NotificationRegister::new();
    let mut queue = ReadyQueue::new(4);
    register.wake(&mut queue);
    assert!(queue.is_empty());
    register.register(&Waker::new(TaskId(8)));
    register.wake(&mut queue);
    register.wake(&mut queue);
    assert!(!register.is_registered());
    assert_eq!(queue.pop(), Some(TaskId(8)));
    assert_eq!(queue.pop(), None);
}

#[test]
fn waking_an_empty_register_needs_no_room() {
    let mut register = NotificationRegister::new();
    let mut queue = ReadyQueue::new(1);
    queue.push(TaskId(1)).unwrap();
    register.wake(&mut queue);
    assert_eq!(queue.len(), 1);
}
