use kernel_tasks::task::keyboard::{Bridge, PushOutcome, ScancodeStream, SCANCODE_QUEUE_CAPACITY};
use kernel_tasks::task::waker::{ReadyQueue, Waker};
use kernel_tasks::task::{Poll, TaskId};

fn drain(ready: &mut ReadyQueue) -> Vec<TaskId> {
    let mut ids = Vec::new();
    while let Some(id) = ready.pop() {
        ids.push(id);
    }
    ids
}

#[test]
fn scancodes_come_out_in_the_order_they_went_in() {
    let mut bridge = Bridge::new();
    let mut ready = ReadyQueue::new(8);
    let mut stream = ScancodeStream::new(&mut bridge);
    let waker = Waker::new(TaskId(1));
    for byte in [0x1e_u8, 0x9e, 0x30, 0xb0] {
        assert_eq!(bridge.add_scancode(byte, &mut ready), PushOutcome::Enqueued);
    }
    for byte in [0x1e_u8, 0x9e, 0x30, 0xb0] {
        assert_eq!(stream.poll_next(&mut bridge, &waker), Poll::Ready(Some(byte)));
    }
    assert_eq!(stream.poll_next(&mut bridge, &waker), Poll::Pending);
}

#[test]
fn pushes_and_polls_may_alternate() {
    let mut bridge = Bridge::new();
    let mut ready = ReadyQueue::new(8);
    let mut stream = ScancodeStream::new(&mut bridge);
    let waker = Waker::new(TaskId(1));
    bridge.add_scancode(1, &mut ready);
    bridge.add_scancode(2, &mut ready);
    assert_eq!(stream.poll_next(&mut bridge, &waker), Poll::Ready(Some(1)));
    bridge.add_scancode(3, &mut ready);
    assert_eq!(stream.poll_next(&mut bridge, &waker), Poll::Ready(Some(2)));
    assert_eq!(stream.poll_next(&mut bridge, &waker), Poll::Ready(Some(3)));
    assert_eq!(stream.poll_next(&mut bridge, &waker), Poll::Pending);
}

#[test]
fn the_queue_has_room_for_a_hundred_scancodes() {
    assert_eq!(SCANCODE_QUEUE_CAPACITY, 100);
}

#[test]
fn scancode_number_101_is_dropped_and_the_first_100_stay() {
    let mut bridge = Bridge::new();
    let mut ready = ReadyQueue::new(8);
    let mut stream = ScancodeStream::new(&mut bridge);
    let waker = Waker::new(TaskId(1));
    for byte in 0..100u8 {
        assert_eq!(bridge.add_scancode(byte, &mut ready), PushOutcome::Enqueued);
    }
    let outcome = bridge.add_scancode(100, &mut ready);
    assert_eq!(outcome, PushOutcome::QueueFull);
    assert_eq!(
        outcome.warning(),
        Some("WARNING: scancode queue full; dropping keyboard input")
    );
    for byte in 0..100u8 {
        assert_eq!(stream.poll_next(&mut bridge, &waker), Poll::Ready(Some(byte)));
    }
    assert_eq!(stream.poll_next(&mut bridge, &waker), Poll::Pending);
}

#[test]
fn a_full_queue_accepts_again_once_a_scancode_has_been_taken() {
    let mut bridge = Bridge::new();
    let mut ready = ReadyQueue::new(8);
    let mut stream = ScancodeStream::new(&mut bridge);
    let waker = Waker::new(TaskId(1));
    for byte in 0..100u8 {
        bridge.add_scancode(byte, &mut ready);
    }
    assert_eq!(bridge.add_scancode(200, &mut ready), PushOutcome::QueueFull);
    assert_eq!(stream.poll_next(&mut bridge, &waker), Poll::Ready(Some(0)));
    assert_eq!(bridge.add_scancode(201, &mut ready), PushOutcome::Enqueued);
    for byte in 1..100u8 {
        assert_eq!(stream.poll_next(&mut bridge, &waker), Poll::Ready(Some(byte)));
    }
    assert_eq!(stream.poll_next(&mut bridge, &waker), Poll::Ready(Some(201)));
    assert_eq!(stream.poll_next(&mut bridge, &waker), Poll::Pending);
}

#[test]
fn a_dropped_scancode_does_not_touch_the_registered_waker() {
    let mut bridge = Bridge::new();
    let mut ready = ReadyQueue::new(8);
    let mut stream = ScancodeStream::new(&mut bridge);
    let waker = Waker::new(TaskId(4));
    assert_eq!(stream.poll_next(&mut bridge, &waker), Poll::Pending);
    for byte in 0..100u8 {
        bridge.add_scancode(byte, &mut ready);
    }
    assert_eq!(drain(&mut ready), vec![TaskId(4)]);
    for byte in 0..100u8 {
        assert_eq!(stream.poll_next(&mut bridge, &waker), Poll::Ready(Some(byte)));
    }
    assert_eq!(stream.poll_next(&mut bridge, &waker), Poll::Pending);
    for byte in 0..100u8 {
        bridge.add_scancode(byte, &mut ready);
    }
    assert_eq!(drain(&mut ready), vec![TaskId(4)]);
    assert!(!bridge.wakes_on_push());
    assert_eq!(bridge.add_scancode(7, &mut ready), PushOutcome::QueueFull);
    assert!(ready.is_empty());
}

#[test]
fn a_push_invokes_the_registered_waker_exactly_once() {
    let mut bridge = Bridge::new();
    let mut ready = ReadyQueue::new(8);
    let mut stream = ScancodeStream::new(&mut bridge);
    let waker = Waker::new(TaskId(7));
    assert_eq!(stream.poll_next(&mut bridge, &waker), Poll::Pending);
    assert!(bridge.wakes_on_push());
    assert!(ready.is_empty());
    assert_eq!(bridge.add_scancode(0x1e, &mut ready), PushOutcome::Enqueued);
    assert_eq!(ready.len(), 1);
    assert!(!bridge.wakes_on_push());
    assert_eq!(bridge.add_scancode(0x9e, &mut ready), PushOutcome::Enqueued);
    assert_eq!(drain(&mut ready), vec![TaskId(7)]);
    assert_eq!(stream.poll_next(&mut bridge, &waker), Poll::Ready(Some(0x1e)));
    assert_eq!(stream.poll_next(&mut bridge, &waker), Poll::Ready(Some(0x9e)));
}

#[test]
fn the_woken_consumer_finds_the_scancode_that_woke_it() {
    let mut bridge = Bridge::new();
    let mut ready = ReadyQueue::new(8);
    let mut stream = ScancodeStream::new(&mut bridge);
    let waker = Waker::new(TaskId(2));
    for round in 0..50u8 {
        assert_eq!(stream.poll_next(&mut bridge, &waker), Poll::Pending);
        assert_eq!(bridge.add_scancode(round, &mut ready), PushOutcome::Enqueued);
        assert_eq!(ready.pop(), Some(TaskId(2)));
        assert_eq!(ready.pop(), None);
        assert_eq!(stream.poll_next(&mut bridge, &waker), Poll::Ready(Some(round)));
    }
}

#[test]
fn a_push_without_a_registered_waker_is_queued_all_the_same() {
    let mut bridge = Bridge::new();
    let mut ready = ReadyQueue::new(1);
    ready.push(TaskId(9)).unwrap();
    assert!(ready.is_full());
    let mut stream = ScancodeStream::new(&mut bridge);
    assert!(!bridge.wakes_on_push());
    assert_eq!(bridge.add_scancode(0x10, &mut ready), PushOutcome::Enqueued);
    assert_eq!(PushOutcome::Enqueued.warning(), None);
    assert_eq!(drain(&mut ready), vec![TaskId(9)]);
    let waker = Waker::new(TaskId(1));
    assert_eq!(stream.poll_next(&mut bridge, &waker), Poll::Ready(Some(0x10)));
}

#[test]
fn a_scancode_that_comes_before_any_stream_is_dropped() {
    let mut bridge = Bridge::new();
    let mut ready = ReadyQueue::new(8);
    assert!(!bridge.is_initialized());
    assert!(!bridge.wakes_on_push());
    let outcome = bridge.add_scancode(0x1e, &mut ready);
    assert_eq!(outcome, PushOutcome::Uninitialized);
    assert_eq!(outcome.warning(), Some("WARNING: scancode queue uninitialized"));
    assert!(ready.is_empty());
    let mut stream = ScancodeStream::new(&mut bridge);
    assert!(bridge.is_initialized());
    let waker = Waker::new(TaskId(1));
    assert_eq!(stream.poll_next(&mut bridge, &waker), Poll::Pending);
}

#[test]
fn the_newest_registration_replaces_the_one_before() {
    let mut bridge = Bridge::new();
    let mut ready = ReadyQueue::new(8);
    let mut stream = ScancodeStream::new(&mut bridge);
    assert_eq!(stream.poll_next(&mut bridge, &Waker::new(TaskId(1))), Poll::Pending);
    assert_eq!(stream.poll_next(&mut bridge, &Waker::new(TaskId(2))), Poll::Pending);
    bridge.add_scancode(5, &mut ready);
    assert_eq!(drain(&mut ready), vec![TaskId(2)]);
}

#[test]
fn a_poll_that_finds_a_scancode_registers_nothing() {
    let mut bridge = Bridge::new();
    let mut ready = ReadyQueue::new(8);
    let mut stream = ScancodeStream::new(&mut bridge);
    bridge.add_scancode(5, &mut ready);
    assert_eq!(stream.poll_next(&mut bridge, &Waker::new(TaskId(3))), Poll::Ready(Some(5)));
    assert!(!bridge.wakes_on_push());
    bridge.add_scancode(6, &mut ready);
    assert!(ready.is_empty());
}

#[test]
fn a_scancode_that_arrives_before_the_registration_is_found_by_the_second_look() {
    let mut bridge = Bridge::new();
    let mut ready = ReadyQueue::new(8);
    let _stream = ScancodeStream::new(&mut bridge);
    let waker = Waker::new(TaskId(3));
    assert_eq!(bridge.take_scancode(), None);
    assert_eq!(bridge.add_scancode(0x1e, &mut ready), PushOutcome::Enqueued);
    assert!(ready.is_empty());
    bridge.register(&waker);
    assert_eq!(bridge.take_scancode(), Some(0x1e));
    assert_eq!(bridge.unregister(), Some(waker));
    assert!(!bridge.wakes_on_push());
}

#[test]
fn a_scancode_that_arrives_after_the_registration_wakes_and_is_found() {
    let mut bridge = Bridge::new();
    let mut ready = ReadyQueue::new(8);
    let _stream = ScancodeStream::new(&mut bridge);
    let waker = Waker::new(TaskId(3));
    assert_eq!(bridge.take_scancode(), None);
    bridge.register(&waker);
    assert_eq!(bridge.add_scancode(0x1e, &mut ready), PushOutcome::Enqueued);
    assert_eq!(drain(&mut ready), vec![TaskId(3)]);
    assert_eq!(bridge.take_scancode(), Some(0x1e));
    assert_eq!(bridge.unregister(), None);
    assert_eq!(bridge.take_scancode(), None);
}

#[test]
fn a_full_queue_wakes_nobody_even_with_a_waker_registered() {
    let mut bridge = Bridge::new();
    let mut ready = ReadyQueue::new(8);
    let _stream = ScancodeStream::new(&mut bridge);
    for byte in 0..100u8 {
        bridge.add_scancode(byte, &mut ready);
    }
    bridge.register(&Waker::new(TaskId(6)));
    assert!(!bridge.wakes_on_push());
    assert_eq!(bridge.add_scancode(100, &mut ready), PushOutcome::QueueFull);
    assert!(ready.is_empty());
    assert_eq!(bridge.take_scancode(), Some(0));
    assert!(bridge.wakes_on_push());
    assert_eq!(bridge.add_scancode(101, &mut ready), PushOutcome::Enqueued);
    assert_eq!(drain(&mut ready), vec![TaskId(6)]);
    assert!(!bridge.wakes_on_push());
}

#[test]
fn pushes_and_polls_in_any_order_lose_and_invent_nothing() {
    let mut bridge = Bridge::new();
    let mut ready = ReadyQueue::new(100);
    let mut stream = ScancodeStream::new(&mut bridge);
    let waker = Waker::new(TaskId(1));
    let mut pushed: Vec<u8> = Vec::new();
    let mut got: Vec<u8> = Vec::new();
    let mut seed: u32 = 12345;
    for step in 0..2000u32 {
        seed = seed.wrapping_mul(1664525).wrapping_add(1013904223);
        if (seed >> 16) % 3 != 0 {
            let byte = (step % 251) as u8;
            if bridge.add_scancode(byte, &mut ready) == PushOutcome::Enqueued {
                pushed.push(byte);
            }
        } else {
            match stream.poll_next(&mut bridge, &waker) {
                Poll::Ready(Some(byte)) => got.push(byte),
                Poll::Ready(None) => panic!("the stream never ends"),
                Poll::Pending => assert_eq!(got, pushed),
            }
        }
        assert!(got.len() <= pushed.len());
        assert_eq!(got[..], pushed[..got.len()]);
        while ready.pop().is_some() {}
    }
    while let Poll::Ready(Some(byte)) = stream.poll_next(&mut bridge, &waker) {
        got.push(byte);
    }
    assert_eq!(got, pushed);
}
