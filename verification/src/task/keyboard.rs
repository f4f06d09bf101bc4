//! The keyboard's way into the task world: the bridge that the interrupt
//! handler fills with scancodes, and the stream that a task drains it by.

use crate::queue::{
    byte_capacity, byte_queue_is_full, new_byte_queue, pop_byte, push_byte, queued_bytes,
};
use crate::console::Console;
use crate::decoder::{advanced_all, decoded, decoded_all, Decoder, DecoderState, Key};
use crate::task::waker::{NotificationRegister, ReadyQueue, ReadyState, Waker};
use crate::task::executor::{lemma_first_turn, Dispatch, ExecutorState, IdleAction};
use crate::task::{Fault, Poll, Resumable, TaskId};
use crossbeam_queue::ArrayQueue;
use vstd::prelude::*;

verus! {

/// How many scancodes the bridge holds before it drops new ones.
pub const SCANCODE_QUEUE_CAPACITY: usize = 100;

/// What became of a scancode that the interrupt handler handed over.
#[derive(Clone, Copy, Debug, PartialEq, Eq, Structural)]
pub enum PushOutcome {
    /// The scancode waits in the queue, and the registered waker, if there was
    /// one, has been invoked.
    Enqueued,
    /// The queue was full; the scancode is lost.
    QueueFull,
    /// No stream has been created yet; the scancode is lost.
    Uninitialized,
}

impl PushOutcome {
    /// The warning to show for a lost scancode.
    pub fn warning(&self) -> (text: Option<&'static str>)
        ensures
            match *self {
                PushOutcome::Enqueued => text.is_none(),
                PushOutcome::QueueFull => text.is_some() && text.unwrap()@
                    == "WARNING: scancode queue full; dropping keyboard input"@,
                PushOutcome::Uninitialized => text.is_some() && text.unwrap()@
                    == "WARNING: scancode queue uninitialized"@,
            },
    {
        match self {
            PushOutcome::Enqueued => None,
            PushOutcome::QueueFull => Some("WARNING: scancode queue full; dropping keyboard input"),
            PushOutcome::Uninitialized => Some("WARNING: scancode queue uninitialized"),
        }
    }
}

/// One thing that happens to a bridge: the interrupt handler hands a
/// scancode over, or the stream is polled.
pub enum BridgeStep {
    Push(u8),
    Poll(Waker),
}

/// What a bridge holds, as a mathematical value.
pub struct BridgeState {
    /// Whether a stream has been created.
    pub initialized: bool,
    /// The scancodes that wait, oldest first.
    pub pending: Seq<u8>,
    /// How many scancodes may wait at once.
    pub capacity: nat,
    /// The waker that the next accepted scancode will invoke.
    pub registered: Option<Waker>,
}

impl BridgeState {
    /// What holds of every bridge that was made by `Bridge::new` and changed
    /// only by the functions of this module: once it is set up it has room
    /// for `SCANCODE_QUEUE_CAPACITY` scancodes and holds no more than that.
    pub open spec fn wf(self) -> bool {
        if self.initialized {
            self.capacity == SCANCODE_QUEUE_CAPACITY && self.pending.len() <= self.capacity
        } else {
            self.capacity == 0 && self.pending.len() == 0
        }
    }

    /// Whether a scancode handed over now would be queued.
    pub open spec fn accepts(self) -> bool {
        self.initialized && self.pending.len() < self.capacity
    }

    /// The bridge after the interrupt handler has handed over `scancode`.
    pub open spec fn pushed(self, scancode: u8) -> BridgeState {
        if self.accepts() {
            BridgeState { pending: self.pending.push(scancode), registered: None, ..self }
        } else {
            self
        }
    }

    /// What the interrupt handler is told about a scancode handed over now.
    pub open spec fn push_outcome(self) -> PushOutcome {
        if !self.initialized {
            PushOutcome::Uninitialized
        } else if self.pending.len() < self.capacity {
            PushOutcome::Enqueued
        } else {
            PushOutcome::QueueFull
        }
    }

    /// The waker that a scancode handed over now invokes.
    pub open spec fn woken(self) -> Option<Waker> {
        if self.accepts() {
            self.registered
        } else {
            None
        }
    }

    /// The scancode that has waited longest, if any waits.
    pub open spec fn oldest(self) -> Option<u8> {
        if self.pending.len() > 0 {
            Some(self.pending[0])
        } else {
            None
        }
    }

    /// The bridge without the scancode that has waited longest.
    pub open spec fn taken(self) -> BridgeState {
        if self.pending.len() > 0 {
            BridgeState { pending: self.pending.drop_first(), ..self }
        } else {
            self
        }
    }

    /// The bridge with `waker` in its register.
    pub open spec fn with_waker(self, waker: Waker) -> BridgeState {
        BridgeState { registered: Some(waker), ..self }
    }

    /// The bridge with its register empty.
    pub open spec fn without_waker(self) -> BridgeState {
        BridgeState { registered: None, ..self }
    }

    /// The bridge after the stream has been polled with `waker`.
    pub open spec fn polled(self, waker: Waker) -> BridgeState {
        if self.pending.len() > 0 {
            BridgeState { pending: self.pending.drop_first(), ..self }
        } else {
            BridgeState { registered: Some(waker), ..self }
        }
    }

    /// What a poll of the stream returns now.
    pub open spec fn poll_result(self) -> Poll<Option<u8>> {
        if self.pending.len() > 0 {
            Poll::Ready(Some(self.pending[0]))
        } else {
            Poll::Pending
        }
    }

    /// The bridge after `step`.
    pub open spec fn stepped(self, step: BridgeStep) -> BridgeState {
        match step {
            BridgeStep::Push(scancode) => self.pushed(scancode),
            BridgeStep::Poll(waker) => self.polled(waker),
        }
    }

    /// The bridge after `steps`, first to last.
    pub open spec fn after(self, steps: Seq<BridgeStep>) -> BridgeState
        decreases steps.len(),
    {
        if steps.len() == 0 {
            self
        } else {
            self.after(steps.drop_last()).stepped(steps.last())
        }
    }

    /// The scancodes that the pushes among `steps` hand over, in order.
    pub open spec fn offered(self, steps: Seq<BridgeStep>) -> Seq<u8>
        decreases steps.len(),
    {
        if steps.len() == 0 {
            Seq::<u8>::empty()
        } else {
            let earlier = self.offered(steps.drop_last());
            match steps.last() {
                BridgeStep::Push(scancode) => earlier.push(scancode),
                BridgeStep::Poll(_) => earlier,
            }
        }
    }

    /// The scancodes that the pushes among `steps` get queued, in order: those
    /// that are handed over while the bridge accepts.
    pub open spec fn accepted(self, steps: Seq<BridgeStep>) -> Seq<u8>
        decreases steps.len(),
    {
        if steps.len() == 0 {
            Seq::<u8>::empty()
        } else {
            let earlier = self.accepted(steps.drop_last());
            match steps.last() {
                BridgeStep::Push(scancode) => if self.after(steps.drop_last()).accepts() {
                    earlier.push(scancode)
                } else {
                    earlier
                },
                BridgeStep::Poll(_) => earlier,
            }
        }
    }

    /// The scancodes that the polls among `steps` return, in order.
    pub open spec fn received(self, steps: Seq<BridgeStep>) -> Seq<u8>
        decreases steps.len(),
    {
        if steps.len() == 0 {
            Seq::<u8>::empty()
        } else {
            let earlier = self.received(steps.drop_last());
            match steps.last() {
                BridgeStep::Push(_) => earlier,
                BridgeStep::Poll(_) => match self.after(steps.drop_last()).poll_result() {
                    Poll::Ready(Some(scancode)) => earlier.push(scancode),
                    _ => earlier,
                },
            }
        }
    }

    /// Whether every push among `steps` finds room in the queue.
    pub open spec fn never_full(self, steps: Seq<BridgeStep>) -> bool {
        forall|i: int|
            0 <= i < steps.len() && steps[i] is Push ==> (#[trigger] self.after(
                steps.take(i),
            )).accepts()
    }

    /// The bridge after the interrupt handler has handed over each of
    /// `scancodes`, first to last, with no poll in between.
    pub open spec fn pushed_all(self, scancodes: Seq<u8>) -> BridgeState
        decreases scancodes.len(),
    {
        if scancodes.len() == 0 {
            self
        } else {
            self.pushed(scancodes[0]).pushed_all(scancodes.drop_first())
        }
    }

    /// The bridge after `count` polls with `waker`, with no push in between.
    pub open spec fn polled_times(self, count: nat, waker: Waker) -> BridgeState
        decreases count,
    {
        if count == 0 {
            self
        } else {
            self.polled(waker).polled_times((count - 1) as nat, waker)
        }
    }

    /// The scancodes that `count` polls with `waker` return, in the order in
    /// which they are returned, with no push in between.
    pub open spec fn drained(self, count: nat, waker: Waker) -> Seq<u8>
        decreases count,
    {
        if count == 0 {
            Seq::<u8>::empty()
        } else {
            let rest = self.polled(waker).drained((count - 1) as nat, waker);
            match self.poll_result() {
                Poll::Ready(Some(scancode)) => seq![scancode] + rest,
                _ => rest,
            }
        }
    }
}

/// The queue of scancodes and the register of the consumer's waker: the two
/// things that the keyboard interrupt handler and the consuming task share.
pub struct Bridge {
    queue: Option<ArrayQueue<u8>>,
    waker: NotificationRegister,
}

impl View for Bridge {
    type V = BridgeState;

    closed spec fn view(&self) -> BridgeState {
        match self.queue {
            Some(queue) => BridgeState {
                initialized: true,
                pending: queued_bytes(queue),
                capacity: byte_capacity(queue),
                registered: self.waker@,
            },
            None => BridgeState {
                initialized: false,
                pending: Seq::<u8>::empty(),
                capacity: 0,
                registered: self.waker@,
            },
        }
    }
}

impl Bridge {
    /// A bridge for which no stream has been created yet.
    pub fn new() -> (bridge: Self)
        ensures
            bridge@ == (BridgeState {
                initialized: false,
                pending: Seq::<u8>::empty(),
                capacity: 0,
                registered: None,
            }),
            bridge@.wf(),
    {
        Bridge { queue: None, waker: NotificationRegister::new() }
    }

    /// Whether a stream has been created.
    pub fn is_initialized(&self) -> (r: bool)
        ensures
            r == self@.initialized,
    {
        self.queue.is_some()
    }

    /// Whether a scancode handed over now would invoke a waker.
    pub fn wakes_on_push(&self) -> (r: bool)
        ensures
            r == self@.woken().is_some(),
    {
        match &self.queue {
            Some(queue) => !byte_queue_is_full(queue) && self.waker.is_registered(),
            None => false,
        }
    }

    /// Removes and returns the scancode that has waited longest. Taking from
    /// a bridge that was never set up is a fault of the kernel, so the caller
    /// rules it out.
    pub fn take_scancode(&mut self) -> (scancode: Option<u8>)
        requires
            old(self)@.initialized,
        ensures
            scancode == old(self)@.oldest(),
            final(self)@ == old(self)@.taken(),
    {
        match &mut self.queue {
            Some(queue) => pop_byte(queue),
            None => None,
        }
    }

    /// Puts `waker` in the register, in place of any waker held before.
    pub fn register(&mut self, waker: &Waker)
        ensures
            final(self)@ == old(self)@.with_waker(*waker),
    {
        self.waker.register(waker);
    }

    /// Empties the register without invoking what it held.
    pub fn unregister(&mut self) -> (waker: Option<Waker>)
        ensures
            waker == old(self)@.registered,
            final(self)@ == old(self)@.without_waker(),
    {
        self.waker.take()
    }

    /// Takes one scancode from the keyboard interrupt handler.
    ///
    /// The scancode is queued behind those that wait, and only then, with the
    /// scancode in the queue, is the registered waker taken out of the
    /// register and invoked. A scancode that
    /// arrives at a full queue, or before any stream exists, is dropped and
    /// nothing else changes.
    pub fn add_scancode(&mut self, scancode: u8, ready: &mut ReadyQueue) -> (outcome: PushOutcome)
        requires
            old(self)@.woken().is_some() ==> !old(ready)@.full(),
        ensures
            outcome == old(self)@.push_outcome(),
            final(self)@ == old(self)@.pushed(scancode),
            final(ready)@ == old(ready)@.woken(old(self)@.woken()),
            old(self)@.wf() ==> final(self)@.wf(),
    {
        match &mut self.queue {
            Some(queue) => {
                match push_byte(queue, scancode) {
                    Err(_) => PushOutcome::QueueFull,
                    Ok(_) => {
                        self.notify(ready);
                        PushOutcome::Enqueued
                    },
                }
            },
            None => PushOutcome::Uninitialized,
        }
    }

    /// Empties the register and invokes the waker it held, once. This comes
    /// after a scancode has been queued and never before: the caller shows
    /// that a scancode waits, so whoever is woken finds one.
    fn notify(&mut self, ready: &mut ReadyQueue)
        requires
            old(self)@.oldest().is_some(),
            old(self)@.registered.is_some() ==> !old(ready)@.full(),
        ensures
            final(self)@ == old(self)@.without_waker(),
            final(ready)@ == old(ready)@.woken(old(self)@.registered),
    {
        self.waker.wake(ready);
    }
}

/// The consumer's end of the bridge. There is one per bridge.
pub struct ScancodeStream {
    _private: (),
}

impl ScancodeStream {
    /// Sets the bridge up with an empty queue and returns its stream. A bridge
    /// is set up once; asking again is a fault of the kernel, so the caller
    /// rules it out.
    pub fn new(bridge: &mut Bridge) -> (stream: Self)
        requires
            !old(bridge)@.initialized,
        ensures
            final(bridge)@ == (BridgeState {
                initialized: true,
                pending: Seq::<u8>::empty(),
                capacity: SCANCODE_QUEUE_CAPACITY as nat,
                registered: old(bridge)@.registered,
            }),
            old(bridge)@.wf() ==> final(bridge)@.wf(),
    {
        bridge.queue = Some(new_byte_queue(SCANCODE_QUEUE_CAPACITY));
        ScancodeStream { _private: () }
    }

    /// Asks for the next scancode.
    ///
    /// A scancode that waits is returned at once and the register is left
    /// alone. Otherwise `waker` is registered, in place of any waker
    /// registered before, and the queue is looked at once more; only if it is
    /// still empty is the caller told to wait.
    pub fn poll_next(&mut self, bridge: &mut Bridge, waker: &Waker) -> (r: Poll<Option<u8>>)
        requires
            old(bridge)@.initialized,
        ensures
            r == old(bridge)@.poll_result(),
            final(bridge)@ == old(bridge)@.polled(*waker),
            old(bridge)@.wf() ==> final(bridge)@.wf(),
    {
        if let Some(scancode) = bridge.take_scancode() {
            return Poll::Ready(Some(scancode));
        }
        bridge.register(waker);
        match bridge.take_scancode() {
            Some(scancode) => {
                bridge.unregister();
                Poll::Ready(Some(scancode))
            },
            None => Poll::Pending,
        }
    }
}

/// The first `capacity` items of `scancodes`, or all of them if they are
/// fewer.
pub open spec fn retained(scancodes: Seq<u8>, capacity: nat) -> Seq<u8> {
    if scancodes.len() <= capacity {
        scancodes
    } else {
        scancodes.take(capacity as int)
    }
}

/// Scancodes that are handed over without a poll in between wait in the
/// order in which they came, behind those that waited before; once the queue
/// is full the later ones are dropped and the earlier ones stay untouched.
pub proof fn lemma_burst_keeps_oldest(bridge: BridgeState, scancodes: Seq<u8>)
    requires
        bridge.wf(),
        bridge.initialized,
    ensures
        bridge.pushed_all(scancodes).pending == retained(bridge.pending + scancodes, bridge.capacity),
        bridge.pushed_all(scancodes).capacity == bridge.capacity,
        bridge.pushed_all(scancodes).initialized,
        bridge.pushed_all(scancodes).wf(),
    decreases scancodes.len(),
{
    if scancodes.len() > 0 {
        lemma_burst_keeps_oldest(bridge.pushed(scancodes[0]), scancodes.drop_first());
    }
}

/// Each scancode of a burst is reported as queued while the queue has room
/// and as dropped, with a warning to show, from then on.
pub proof fn lemma_burst_outcomes(bridge: BridgeState, scancodes: Seq<u8>, index: int)
    requires
        bridge.wf(),
        bridge.initialized,
        0 <= index < scancodes.len(),
    ensures
        bridge.pushed_all(scancodes.take(index)).push_outcome() == if bridge.pending.len() + index
            < bridge.capacity {
            PushOutcome::Enqueued
        } else {
            PushOutcome::QueueFull
        },
{
    lemma_burst_keeps_oldest(bridge, scancodes.take(index));
}

/// Polling hands the waiting scancodes out oldest first, each once.
pub proof fn lemma_polls_drain_in_order(bridge: BridgeState, count: nat, waker: Waker)
    requires
        count <= bridge.pending.len(),
    ensures
        bridge.drained(count, waker) == bridge.pending.take(count as int),
        bridge.polled_times(count, waker).pending == bridge.pending.skip(count as int),
        bridge.polled_times(count, waker).registered == bridge.registered,
        bridge.polled_times(count, waker).capacity == bridge.capacity,
        bridge.polled_times(count, waker).initialized == bridge.initialized,
    decreases count,
{
    if count > 0 {
        lemma_polls_drain_in_order(bridge.polled(waker), (count - 1) as nat, waker);
    }
}

/// First in, first out: scancodes that are handed over while the queue has
/// room for all of them come out of the stream in the order in which they
/// went in, each exactly once, behind those that waited before; after that
/// the stream is empty.
pub proof fn lemma_fifo(bridge: BridgeState, scancodes: Seq<u8>, waker: Waker)
    requires
        bridge.wf(),
        bridge.initialized,
        bridge.pending.len() + scancodes.len() <= bridge.capacity,
    ensures
        bridge.pushed_all(scancodes).drained(bridge.pending.len() + scancodes.len(), waker)
            == bridge.pending + scancodes,
        bridge.pushed_all(scancodes).polled_times(
            bridge.pending.len() + scancodes.len(),
            waker,
        ).poll_result() == Poll::<Option<u8>>::Pending,
{
    lemma_burst_keeps_oldest(bridge, scancodes);
    lemma_polls_drain_in_order(
        bridge.pushed_all(scancodes),
        bridge.pending.len() + scancodes.len(),
        waker,
    );
}

/// First in, first out, however pushes and polls alternate: at every moment
/// the scancodes that waited at the start, followed by those that the pushes
/// got queued, are the scancodes that the polls have returned followed by
/// those that still wait. So the polls return them in the order in which
/// they came, each once and none invented; a poll that tells its caller to
/// wait has left none behind; and while no push finds the queue full, every
/// scancode handed over is among them.
pub proof fn lemma_fifo_interleaved(bridge: BridgeState, steps: Seq<BridgeStep>)
    requires
        bridge.wf(),
        bridge.initialized,
    ensures
        bridge.after(steps).wf(),
        bridge.after(steps).initialized,
        bridge.pending + bridge.accepted(steps) == bridge.received(steps) + bridge.after(
            steps,
        ).pending,
        bridge.received(steps).is_prefix_of(bridge.pending + bridge.accepted(steps)),
        bridge.after(steps).poll_result() == Poll::<Option<u8>>::Pending ==> bridge.received(steps)
            == bridge.pending + bridge.accepted(steps),
        bridge.never_full(steps) ==> bridge.accepted(steps) == bridge.offered(steps),
    decreases steps.len(),
{
    if steps.len() > 0 {
        let earlier = steps.drop_last();
        lemma_fifo_interleaved(bridge, earlier);
        if steps.last() is Push && bridge.after(earlier).accepts() {
            assert(bridge.pending + bridge.accepted(earlier).push(steps.last()->Push_0) =~= (
            bridge.pending + bridge.accepted(earlier)).push(steps.last()->Push_0));
        }
        if bridge.never_full(steps) {
            assert forall|i: int| 0 <= i < earlier.len() && earlier[i] is Push implies (
            #[trigger] bridge.after(earlier.take(i))).accepts() by {
                assert(earlier.take(i) =~= steps.take(i));
            }
        }
    }
}

/// A scancode that arrives at an empty queue with a waker registered invokes
/// that waker exactly once: the ready queue gains the one entry, the register
/// is left empty, and a further scancode invokes nobody. The woken consumer
/// finds the scancode waiting.
pub proof fn lemma_first_scancode_wakes_once(
    bridge: BridgeState,
    waker: Waker,
    first: u8,
    ready: ReadyState,
)
    requires
        bridge.wf(),
        bridge.initialized,
        bridge.pending.len() == 0,
        bridge.registered == Some(waker),
    ensures
        bridge.push_outcome() == PushOutcome::Enqueued,
        bridge.woken() == Some(waker),
        ready.woken(bridge.woken()).ids == ready.ids.push(waker.task.0),
        bridge.pushed(first).registered.is_none(),
        bridge.pushed(first).poll_result() == Poll::Ready(Some(first)),
        bridge.pushed(first).woken().is_none(),
        ready.woken(bridge.woken()).woken(bridge.pushed(first).woken()).ids == ready.ids.push(
            waker.task.0,
        ),
{
}

/// A scancode that arrives while no waker is registered is queued all the
/// same and invokes nobody; a later poll finds it behind the scancodes that
/// waited before it.
pub proof fn lemma_push_without_consumer(
    bridge: BridgeState,
    scancode: u8,
    waker: Waker,
    ready: ReadyState,
)
    requires
        bridge.wf(),
        bridge.accepts(),
        bridge.registered.is_none(),
    ensures
        bridge.push_outcome() == PushOutcome::Enqueued,
        bridge.woken().is_none(),
        ready.woken(bridge.woken()) == ready,
        bridge.pushed(scancode).pending == bridge.pending.push(scancode),
        bridge.pushed(scancode).polled_times(bridge.pending.len(), waker).poll_result()
            == Poll::Ready(Some(scancode)),
{
    lemma_polls_drain_in_order(bridge.pushed(scancode), bridge.pending.len(), waker);
}

/// No wakeup is lost: a poll that tells its caller to wait leaves the
/// caller's waker registered, and the next scancode that arrives invokes it
/// and is the one that the woken caller then receives.
pub proof fn lemma_waiting_consumer_is_woken(bridge: BridgeState, waker: Waker, scancode: u8)
    requires
        bridge.wf(),
        bridge.initialized,
        bridge.poll_result() == Poll::<Option<u8>>::Pending,
    ensures
        bridge.polled(waker).registered == Some(waker),
        bridge.polled(waker).woken() == Some(waker),
        bridge.polled(waker).pushed(scancode).poll_result() == Poll::Ready(Some(scancode)),
{
}

/// Why a poll looks twice. A poll that finds nothing registers its waker and
/// looks again. Scancodes may arrive after the first look and before the
/// registration (`early`), where they wake nobody, or after the registration
/// and before the second look (`late`). If any arrived, the second look finds
/// the first of them, so the caller is not told to wait; if none arrived, the
/// caller waits with its waker registered.
pub proof fn lemma_second_look_closes_the_window(
    bridge: BridgeState,
    waker: Waker,
    early: Seq<u8>,
    late: Seq<u8>,
)
    requires
        bridge.wf(),
        bridge.initialized,
        bridge.oldest().is_none(),
    ensures
        early.len() + late.len() > 0 ==> bridge.pushed_all(early).with_waker(waker).pushed_all(
            late,
        ).oldest() == Some((early + late)[0]),
        early.len() + late.len() == 0 ==> bridge.pushed_all(early).with_waker(waker).pushed_all(
            late,
        ) == bridge.polled(waker),
        bridge.registered.is_none() ==> forall|i: int|
            0 <= i < early.len() ==> (#[trigger] bridge.pushed_all(early.take(i))).woken().is_none(),
{
    lemma_burst_keeps_oldest(bridge, early);
    lemma_burst_keeps_oldest(bridge.pushed_all(early).with_waker(waker), late);
    assert forall|i: int| 0 <= i < early.len() implies (#[trigger] bridge.pushed_all(
        early.take(i),
    )).registered == if i > 0 {
        None
    } else {
        bridge.registered
    } by {
        lemma_burst_empties_register(bridge, early.take(i));
    }
}

/// Scancodes that are handed over without a poll in between invoke at most
/// the one waker that was registered before them: once a scancode has been
/// queued the register is empty, and if none could be queued the register is
/// as it was.
pub proof fn lemma_burst_empties_register(bridge: BridgeState, scancodes: Seq<u8>)
    requires
        bridge.wf(),
    ensures
        bridge.pushed_all(scancodes).registered == if bridge.accepts() && scancodes.len() > 0 {
            None
        } else {
            bridge.registered
        },
    decreases scancodes.len(),
{
    if scancodes.len() > 0 {
        lemma_burst_empties_register(bridge.pushed(scancodes[0]), scancodes.drop_first());
    }
}

/// What the keyboard task works on: the bridge it reads from and the console
/// it writes to.
pub struct Devices {
    pub scancodes: Bridge,
    pub console: Console,
}

impl Devices {
    /// A bridge for which no stream exists yet, and an empty console.
    pub fn new() -> (devices: Self)
        ensures
            devices.scancodes@ == (BridgeState {
                initialized: false,
                pending: Seq::<u8>::empty(),
                capacity: 0,
                registered: None,
            }),
            devices.console@ == Seq::<char>::empty(),
    {
        Devices { scancodes: Bridge::new(), console: Console::new() }
    }
}

/// The text that shows `key`: the character itself, or the name of a key
/// that has no character.
pub open spec fn key_text(key: Key) -> Seq<char> {
    match key {
        Key::Unicode(character) => seq![character],
        Key::RawKey(name) => name@,
    }
}

/// The text that shows the decoder's answers `keys`, first to last: the text
/// of each key, and nothing for a byte that completed no key.
pub open spec fn keys_text(keys: Seq<Option<Key>>) -> Seq<char>
    decreases keys.len(),
{
    if keys.len() == 0 {
        Seq::<char>::empty()
    } else {
        keys_text(keys.drop_last()) + match keys.last() {
            Some(key) => key_text(key),
            None => Seq::<char>::empty(),
        }
    }
}

/// Writes a decoded key to the console.
pub fn print_key(console: &mut Console, key: &Key)
    ensures
        final(console)@ == old(console)@ + key_text(*key),
{
    match key {
        Key::Unicode(character) => {
            console.print_char(*character);
        },
        Key::RawKey(name) => {
            console.print_str(name.as_str());
        },
    }
}

/// The task that shows what is typed: it takes scancodes from the stream,
/// feeds them to the decoder, and writes each key that comes out to the
/// console.
pub struct Keypresses {
    scancodes: Option<ScancodeStream>,
    keyboard: Decoder,
}

impl Keypresses {
    /// Whether the task has created its stream.
    pub closed spec fn started(&self) -> bool {
        self.scancodes.is_some()
    }

    /// The task's decoder: the scancodes that the task has fed to it, in
    /// order, and the keyboard in the state they have left it in.
    pub closed spec fn decoder(&self) -> DecoderState {
        self.keyboard@
    }

    /// The fault that stops the task on entry, if there is one: a task that
    /// has no stream yet finds the bridge set up by someone else, or a task
    /// that has its stream is run on a bridge that was never set up.
    pub open spec fn fault_on(&self, bridge: BridgeState) -> Option<Fault> {
        if !self.started() && bridge.initialized {
            Some(Fault::StreamAlreadyInitialized)
        } else if self.started() && !bridge.initialized {
            Some(Fault::StreamNotInitialized)
        } else {
            None
        }
    }
}

/// The keyboard task, not yet started. Its first turn creates the scancode
/// stream; its decoder is new and has been fed nothing.
pub fn print_keypresses() -> (task: Keypresses)
    ensures
        !task.started(),
        task.decoder().fed == Seq::<u8>::empty(),
{
    Keypresses { scancodes: None, keyboard: Decoder::new() }
}

impl Resumable<Devices> for Keypresses {
    /// What one turn of the keyboard task does.
    ///
    /// The first turn creates the stream. Every turn then takes the scancodes
    /// that wait, oldest first, feeds each to the decoder and writes the key
    /// that it completes, if any, to the console. When none is left the task
    /// waits with its waker registered on the bridge. The task never
    /// finishes and makes no task ready.
    open spec fn resumes(
        before: Self,
        env_before: Devices,
        ready_before: ReadyState,
        waker: Waker,
        after: Self,
        env_after: Devices,
        ready_after: ReadyState,
        outcome: Poll<Result<(), Fault>>,
    ) -> bool {
        &&& ready_after == ready_before
        &&& match before.fault_on(env_before.scancodes@) {
            Some(fault) => {
                &&& outcome == Poll::Ready(Err::<(), Fault>(fault))
                &&& after.started() == before.started()
                &&& after.decoder() == before.decoder()
                &&& env_after.scancodes@ == env_before.scancodes@
                &&& env_after.console@ == env_before.console@
            },
            None => {
                &&& outcome == Poll::<Result<(), Fault>>::Pending
                &&& after.started()
                &&& after.decoder().fed == before.decoder().fed + env_before.scancodes@.pending
                &&& after.decoder().keyboard == advanced_all(
                    before.decoder().keyboard,
                    env_before.scancodes@.pending,
                )
                &&& env_after.scancodes@ == (BridgeState {
                    initialized: true,
                    pending: Seq::<u8>::empty(),
                    capacity: if env_before.scancodes@.initialized {
                        env_before.scancodes@.capacity
                    } else {
                        SCANCODE_QUEUE_CAPACITY as nat
                    },
                    registered: Some(waker),
                })
                &&& env_after.console@ == env_before.console@ + keys_text(
                    decoded_all(before.decoder().keyboard, env_before.scancodes@.pending),
                )
            },
        }
    }

    /// Runs the keyboard task until no scancode is left.
    fn resume(&mut self, env: &mut Devices, ready: &mut ReadyQueue, waker: &Waker) -> (outcome: Poll<
        Result<(), Fault>,
    >) {
        if self.scancodes.is_none() {
            if env.scancodes.is_initialized() {
                return Poll::Ready(Err(Fault::StreamAlreadyInitialized));
            }
            self.scancodes = Some(ScancodeStream::new(&mut env.scancodes));
        } else if !env.scancodes.is_initialized() {
            return Poll::Ready(Err(Fault::StreamNotInitialized));
        }
        let ghost waiting = env.scancodes@.pending;
        let ghost mut taken: int = 0;
        loop
            invariant
                old(self).fault_on(old(env).scancodes@).is_none(),
                waiting == old(env).scancodes@.pending,
                0 <= taken <= waiting.len(),
                self.scancodes.is_some(),
                env.scancodes@.initialized,
                env.scancodes@.pending == waiting.skip(taken),
                env.scancodes@.capacity == if old(env).scancodes@.initialized {
                    old(env).scancodes@.capacity
                } else {
                    SCANCODE_QUEUE_CAPACITY as nat
                },
                self.keyboard@.fed == old(self).keyboard@.fed + waiting.take(taken),
                self.keyboard@.keyboard == advanced_all(
                    old(self).keyboard@.keyboard,
                    waiting.take(taken),
                ),
                env.console@ == old(env).console@ + keys_text(
                    decoded_all(old(self).keyboard@.keyboard, waiting.take(taken)),
                ),
            decreases waiting.len() - taken,
        {
            let next = match &mut self.scancodes {
                Some(scancodes) => scancodes.poll_next(&mut env.scancodes, waker),
                None => Poll::Pending,
            };
            match next {
                Poll::Ready(Some(scancode)) => {
                    let key = self.keyboard.feed(scancode);
                    if let Some(key) = &key {
                        print_key(&mut env.console, key);
                    }
                    proof {
                        let start = old(self).keyboard@.keyboard;
                        let answered = decoded_all(start, waiting.take(taken));
                        assert(waiting.take(taken + 1).drop_last() =~= waiting.take(taken));
                        assert(answered.push(key).drop_last() =~= answered);
                        taken = taken + 1;
                    }
                },
                Poll::Ready(None) => {
                    return Poll::Ready(Ok(()));
                },
                Poll::Pending => {
                    proof {
                        assert(waiting.take(taken) =~= waiting);
                        assert(env.scancodes@.pending =~= Seq::<u8>::empty());
                    }
                    return Poll::Pending;
                },
            }
        }
    }
}

/// One turn of a keyboard task that meets no fault: the task waits
/// afterwards, its decoder has been fed every scancode that waited, in order,
/// the bridge is empty and holds the task's own waker, and neither the ready
/// queue nor any other task has changed.
pub proof fn lemma_keyboard_turn(
    executor: ExecutorState<Keypresses>,
    devices: Devices,
    id: TaskId,
    after: ExecutorState<Keypresses>,
    devices_after: Devices,
    dispatch: Dispatch,
)
    requires
        executor.tasks.contains_key(id.0),
        executor.tasks[id.0].computation.fault_on(devices.scancodes@).is_none(),
        executor.turn(devices, id, after, devices_after, dispatch),
    ensures
        dispatch == Dispatch::Pending,
        after.tasks.contains_key(id.0),
        after.tasks.remove(id.0) == executor.tasks.remove(id.0),
        after.ready == executor.ready,
        ({
            let before = executor.tasks[id.0].computation.decoder();
            let now = after.tasks[id.0].computation.decoder();
            &&& after.tasks[id.0].computation.started()
            &&& now.fed == before.fed + devices.scancodes@.pending
            &&& now.keyboard == advanced_all(before.keyboard, devices.scancodes@.pending)
            &&& devices_after.console@ == devices.console@ + keys_text(
                decoded_all(before.keyboard, devices.scancodes@.pending),
            )
        }),
        devices.scancodes@.pending.len() == 0 ==> devices_after.console@ == devices.console@,
        devices_after.scancodes@ == (BridgeState {
            initialized: true,
            pending: Seq::<u8>::empty(),
            capacity: if devices.scancodes@.initialized {
                devices.scancodes@.capacity
            } else {
                SCANCODE_QUEUE_CAPACITY as nat
            },
            registered: Some(Waker { task: id }),
        }),
{
}

/// A run of the ready tasks in which the keyboard task is the only entry
/// and meets no fault gives that task one turn and leaves nothing ready.
pub proof fn lemma_keyboard_round(
    executor: ExecutorState<Keypresses>,
    devices: Devices,
    id: TaskId,
    after: ExecutorState<Keypresses>,
    devices_after: Devices,
    result: Result<(), Fault>,
)
    requires
        executor.tasks.contains_key(id.0),
        executor.tasks[id.0].computation.fault_on(devices.scancodes@).is_none(),
        executor.ready.ids == seq![id.0],
        executor.rounds(devices, 1, after, devices_after, result),
    ensures
        result.is_ok(),
        executor.popped().turn(devices, id, after, devices_after, Dispatch::Pending),
        after.ready.ids == Seq::<u64>::empty(),
        after.idle_action() == IdleAction::EnableInterruptsAndHalt,
{
    let (next, devices_next, dispatch) = lemma_first_turn(
        executor,
        devices,
        1,
        after,
        devices_after,
        result,
    );
    lemma_keyboard_turn(executor.popped(), devices, id, next, devices_next, dispatch);
}

/// From a keystroke to the keyboard task, end to end.
///
/// The keyboard task is the only entry of the ready queue and has not run
/// yet. Its first turn sets the bridge up and leaves the task waiting with
/// nothing ready, so the processor may halt. A scancode that then arrives is
/// queued and wakes the task, so the processor does not halt. The next run of
/// the ready tasks feeds exactly that scancode to the task's decoder and
/// leaves the task waiting for the next one.
pub proof fn lemma_keystroke_reaches_task(
    executor: ExecutorState<Keypresses>,
    devices: Devices,
    id: TaskId,
    first: ExecutorState<Keypresses>,
    devices_first: Devices,
    result_first: Result<(), Fault>,
    scancode: u8,
    devices_hit: Devices,
    second: ExecutorState<Keypresses>,
    devices_second: Devices,
    result_second: Result<(), Fault>,
)
    requires
        executor.tasks.contains_key(id.0),
        !executor.tasks[id.0].computation.started(),
        executor.ready.ids == seq![id.0],
        !devices.scancodes@.initialized,
        executor.rounds(devices, 1, first, devices_first, result_first),
        devices_hit.scancodes@ == devices_first.scancodes@.pushed(scancode),
        devices_hit.console@ == devices_first.console@,
        (ExecutorState {
            ready: first.ready.woken(devices_first.scancodes@.woken()),
            ..first
        }).rounds(devices_hit, 1, second, devices_second, result_second),
    ensures
        result_first.is_ok(),
        first.idle_action() == IdleAction::EnableInterruptsAndHalt,
        devices_first.console@ == devices.console@,
        devices_first.scancodes@.push_outcome() == PushOutcome::Enqueued,
        devices_first.scancodes@.woken() == Some(Waker { task: id }),
        (ExecutorState {
            ready: first.ready.woken(devices_first.scancodes@.woken()),
            ..first
        }).idle_action() == IdleAction::EnableInterrupts,
        result_second.is_ok(),
        second.tasks.contains_key(id.0),
        ({
            let before = executor.tasks[id.0].computation.decoder();
            let now = second.tasks[id.0].computation.decoder();
            &&& now.fed == before.fed.push(scancode)
            &&& devices_second.console@ == devices.console@ + match decoded(
                before.keyboard,
                scancode,
            ) {
                Some(key) => key_text(key),
                None => Seq::<char>::empty(),
            }
        }),
        devices_second.scancodes@.pending.len() == 0,
        devices_second.scancodes@.registered == Some(Waker { task: id }),
        second.idle_action() == IdleAction::EnableInterruptsAndHalt,
{
    lemma_keyboard_round(executor, devices, id, first, devices_first, result_first);
    lemma_keyboard_turn(executor.popped(), devices, id, first, devices_first, Dispatch::Pending);
    let awake = ExecutorState {
        ready: first.ready.woken(devices_first.scancodes@.woken()),
        ..first
    };
    lemma_keyboard_round(awake, devices_hit, id, second, devices_second, result_second);
    lemma_keyboard_turn(awake.popped(), devices_hit, id, second, devices_second, Dispatch::Pending);
    let keyboard = executor.tasks[id.0].computation.decoder().keyboard;
    let hit = seq![scancode];
    assert(decoded_all(keyboard, hit) =~= seq![decoded(keyboard, scancode)]) by {
        reveal_with_fuel(decoded_all, 2);
        reveal_with_fuel(advanced_all, 2);
    }
    assert(keys_text(seq![decoded(keyboard, scancode)]) =~= match decoded(keyboard, scancode) {
        Some(key) => key_text(key),
        None => Seq::<char>::empty(),
    }) by {
        reveal_with_fuel(keys_text, 2);
    }
}

} // verus!
