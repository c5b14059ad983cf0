//! The event bridge between interrupt context and the async world: a
//! fixed-capacity queue of raw scancode bytes that is safe to push into from
//! an interrupt handler (no blocking, no allocation), plus a single-slot
//! waker holder. The producer side pushes a byte and wakes the registered
//! consumer; the consumer side pulls bytes through an async-style stream that
//! never misses a wakeup.

use vstd::prelude::*;

use crate::executor::{FatalError, WakerHandle};
use crate::vga_buffer::{screen_wf, Writer};
use crossbeam_queue::ArrayQueue;
use pc_keyboard::layouts::Us104Key;
use pc_keyboard::{DecodedKey, HandleControl, KeyEvent, PS2Keyboard, ScancodeSet1};

verus! {

/// How many raw event bytes the bridge can hold before it starts dropping.
pub const SCANCODE_QUEUE_CAPACITY: usize = 100;

/// What the scancode queue holds, oldest first.
pub uninterp spec fn scancodes(queue: ArrayQueue<u8>) -> Seq<u8>;

/// The fixed capacity the scancode queue was built with.
pub uninterp spec fn scancode_capacity(queue: ArrayQueue<u8>) -> nat;

/// Relies on crossbeam_queue::ArrayQueue::new: the fresh queue is empty and
/// bounded by the given capacity. It panics when the capacity is zero or when
/// no power of two above it fits the index type, so those are excluded here.
#[verifier::external_body]
fn new_scancode_queue(capacity: usize) -> (queue: ArrayQueue<u8>)
    requires
        1 <= capacity < usize::MAX / 2,
    ensures
        scancodes(queue) == Seq::<u8>::empty(),
        scancode_capacity(queue) == capacity,
{
    ArrayQueue::new(capacity)
}

/// Relies on crossbeam_queue::ArrayQueue::push: the queue is a bounded FIFO
/// ring; a push appends when a slot is free and otherwise hands the element
/// back without changing the queue. The queue is owned exclusively here, so
/// its contents are a function of the value.
#[verifier::external_body]
fn push_scancode(queue: &mut ArrayQueue<u8>, code: u8) -> (r: Result<(), u8>)
    ensures
        scancode_capacity(*final(queue)) == scancode_capacity(*old(queue)),
        scancodes(*old(queue)).len() < scancode_capacity(*old(queue)) ==> r is Ok && scancodes(
            *final(queue),
        ) == scancodes(*old(queue)).push(code),
        scancodes(*old(queue)).len() >= scancode_capacity(*old(queue)) ==> r is Err && r->Err_0
            == code && scancodes(*final(queue)) == scancodes(*old(queue)),
{
    queue.push(code)
}

/// Relies on crossbeam_queue::ArrayQueue::pop: returns the oldest element and
/// removes it; an empty queue returns nothing and stays unchanged.
#[verifier::external_body]
fn pop_scancode(queue: &mut ArrayQueue<u8>) -> (r: Option<u8>)
    ensures
        scancode_capacity(*final(queue)) == scancode_capacity(*old(queue)),
        scancodes(*old(queue)).len() == 0 ==> r is None && scancodes(*final(queue)) == scancodes(
            *old(queue),
        ),
        scancodes(*old(queue)).len() > 0 ==> r == Some(scancodes(*old(queue))[0]) && scancodes(
            *final(queue),
        ) == scancodes(*old(queue)).drop_first(),
{
    queue.pop()
}

/// Mathematical state of the event bridge: whether a consumer has initialized
/// it, the buffered event bytes (oldest first), the buffer's capacity, and
/// the registered waker, if any.
pub struct BridgeState {
    pub initialized: bool,
    pub events: Seq<u8>,
    pub capacity: nat,
    pub waker: Option<WakerHandle>,
}

/// The interrupt-to-async event bridge: a lazily initialized ring buffer of
/// raw event bytes plus a single-slot waker holder (last registration wins).
pub struct EventBridge {
    queue: Option<ArrayQueue<u8>>,
    waker: Option<WakerHandle>,
}

impl View for EventBridge {
    type V = BridgeState;

    closed spec fn view(&self) -> BridgeState {
        match self.queue {
            Some(queue) => BridgeState {
                initialized: true,
                events: scancodes(queue),
                capacity: scancode_capacity(queue),
                waker: self.waker,
            },
            None => BridgeState {
                initialized: false,
                events: Seq::empty(),
                capacity: 0,
                waker: self.waker,
            },
        }
    }
}

impl EventBridge {
    /// A bridge with no buffer yet (the first consumer brings one) and an
    /// empty waker slot.
    pub fn new() -> (bridge: EventBridge)
        ensures
            !bridge@.initialized,
            bridge@.events == Seq::<u8>::empty(),
            bridge@.waker is None,
    {
        EventBridge { queue: None, waker: None }
    }

    /// Whether a consumer has initialized the bridge.
    pub fn is_initialized(&self) -> (r: bool)
        ensures
            r == self@.initialized,
    {
        match &self.queue {
            Some(_) => true,
            None => false,
        }
    }

    /// The id of the task whose waker sits in the slot, if a relay does.
    pub fn registered_task(&self) -> (r: Option<u64>)
        ensures
            match self@.waker {
                Some(w) => r == w.woken_task(),
                None => r is None,
            },
    {
        match &self.waker {
            Some(w) => w.woken_task_id(),
            None => None,
        }
    }
}

/// What became of one pushed event byte. Both dropped outcomes are soft
/// failures: the producer reports them through the diagnostic sink and goes
/// on.
#[derive(Clone, Copy, Debug, PartialEq, Eq, Structural)]
pub enum PushStatus {
    /// The byte was buffered (and the registered consumer, if any, was
    /// woken).
    Stored,
    /// No consumer has initialized the bridge yet; the byte was dropped.
    DroppedUninitialized,
    /// The buffer was full; the newest byte was dropped and the buffered ones
    /// kept.
    DroppedFull,
}

/// The bridge state after one push: an uninitialized or full bridge is left
/// unchanged; otherwise the byte is appended and the waker slot is emptied
/// (its holder has been woken).
pub open spec fn bridge_push(b: BridgeState, code: u8) -> BridgeState {
    if !b.initialized {
        b
    } else if b.events.len() >= b.capacity {
        b
    } else {
        BridgeState { events: b.events.push(code), waker: None, ..b }
    }
}

/// What one push reports for a given starting state.
pub open spec fn push_status(b: BridgeState, code: u8) -> PushStatus {
    if !b.initialized {
        PushStatus::DroppedUninitialized
    } else if b.events.len() >= b.capacity {
        PushStatus::DroppedFull
    } else {
        PushStatus::Stored
    }
}

/// The waker one push hands the wakeup to: only a stored byte wakes, and it
/// wakes exactly the holder of the slot.
pub open spec fn push_woken(b: BridgeState, code: u8) -> Option<WakerHandle> {
    if b.initialized && b.events.len() < b.capacity {
        b.waker
    } else {
        None
    }
}

/// The bridge after a whole sequence of pushes, oldest first.
pub open spec fn bridge_push_all(b: BridgeState, codes: Seq<u8>) -> BridgeState
    decreases codes.len(),
{
    if codes.len() == 0 {
        b
    } else {
        bridge_push_all(bridge_push(b, codes[0]), codes.drop_first())
    }
}

/// The bridge after the consumer takes the oldest buffered byte.
pub open spec fn bridge_after_pull(b: BridgeState) -> BridgeState {
    BridgeState { events: b.events.drop_first(), ..b }
}

/// The bytes that `n` successive pulls return, in order.
pub open spec fn bridge_drain(b: BridgeState, n: nat) -> Seq<u8>
    decreases n,
{
    if n == 0 || b.events.len() == 0 {
        Seq::empty()
    } else {
        seq![b.events[0]] + bridge_drain(bridge_after_pull(b), (n - 1) as nat)
    }
}

/// The bridge with a consumer's waker registered (last registration wins).
pub open spec fn bridge_register(b: BridgeState, w: WakerHandle) -> BridgeState {
    BridgeState { waker: Some(w), ..b }
}

/// Pushing a sequence of event bytes that fits into the buffer's free space
/// buffers exactly those bytes, behind the ones already there and in push
/// order: the bridge preserves event order.
pub proof fn lemma_bridge_preserves_order(b: BridgeState, codes: Seq<u8>)
    requires
        b.initialized,
        b.events.len() + codes.len() <= b.capacity,
    ensures
        bridge_push_all(b, codes).initialized,
        bridge_push_all(b, codes).capacity == b.capacity,
        bridge_push_all(b, codes).events == b.events + codes,
    decreases codes.len(),
{
    if codes.len() == 0 {
        assert(b.events + codes =~= b.events);
    } else {
        let b1 = bridge_push(b, codes[0]);
        lemma_bridge_preserves_order(b1, codes.drop_first());
        assert(b.events.push(codes[0]) + codes.drop_first() =~= b.events + codes);
    }
}

/// Pushing into a full bridge drops the newest byte: the bridge itself, its
/// buffered bytes among it, is left exactly as it was, and the push reports
/// the drop.
pub proof fn lemma_bridge_drops_newest(b: BridgeState, code: u8)
    requires
        b.initialized,
        b.events.len() >= b.capacity,
    ensures
        bridge_push(b, code) == b,
        push_status(b, code) == PushStatus::DroppedFull,
{
}

/// `n` pulls return exactly the `n` oldest buffered bytes, in order.
pub proof fn lemma_bridge_yields_in_order(b: BridgeState, n: nat)
    requires
        n <= b.events.len(),
    ensures
        bridge_drain(b, n) == b.events.take(n as int),
    decreases n,
{
    if n == 0 {
        assert(bridge_drain(b, n) =~= b.events.take(0));
    } else {
        let b1 = bridge_after_pull(b);
        lemma_bridge_yields_in_order(b1, (n - 1) as nat);
        assert(seq![b.events[0]] + b.events.drop_first().take(n - 1) =~= b.events.take(n as int));
    }
}

/// No lost wakeup: a pull found the buffer empty and registered its waker; a
/// producer's push-and-wake raced in between that first check and the
/// registration. The pull's second check still finds the byte and returns it
/// from the same call, withdrawing the registration, rather than relying on
/// the wakeup that fired before the registration completed.
pub proof fn lemma_no_lost_wakeup(b: BridgeState, w: WakerHandle, code: u8)
    requires
        b.initialized,
        b.events.len() == 0,
        b.capacity > 0,
    ensures
        ({
            let raced = bridge_push(bridge_register(b, w), code);
            raced.events.len() > 0 && raced.events[0] == code && bridge_after_pull(raced).events
                =~= Seq::<u8>::empty()
        }),
{
}

/// How many wakeups a sequence of pushes hands out.
pub open spec fn wakes_during(b: BridgeState, codes: Seq<u8>) -> nat
    decreases codes.len(),
{
    if codes.len() == 0 {
        0
    } else {
        (if push_woken(b, codes[0]) is Some {
            1nat
        } else {
            0nat
        }) + wakes_during(bridge_push(b, codes[0]), codes.drop_first())
    }
}

/// Duplicate wakeups coalesce: however many event bytes are pushed before the
/// consumer is polled again, the slot's waker is woken at most once — the
/// first stored byte takes it out of the slot, and nothing re-registers it
/// until the consumer's next poll. An empty slot wakes nobody at all.
pub proof fn lemma_rewake_coalesced(b: BridgeState, codes: Seq<u8>)
    requires
        b.initialized,
    ensures
        wakes_during(b, codes) <= 1,
        b.waker is None ==> wakes_during(b, codes) == 0,
    decreases codes.len(),
{
    if codes.len() > 0 {
        lemma_rewake_coalesced(bridge_push(b, codes[0]), codes.drop_first());
    }
}

/// Producer side, called from interrupt context for each raw event byte: a
/// non-blocking, allocation-free push. Before any consumer exists, or when
/// the buffer is full, the byte is dropped and the status says so. A stored
/// byte wakes the registered waker, which empties the slot; the wakeup itself
/// fails only when the ready queue overflows, which is fatal.
pub fn add_scancode(bridge: &mut EventBridge, scancode: u8) -> (r: Result<PushStatus, FatalError>)
    ensures
        final(bridge)@ == bridge_push(old(bridge)@, scancode),
        r is Ok ==> r->Ok_0 == push_status(old(bridge)@, scancode),
        r is Err ==> r->Err_0 == FatalError::ReadyQueueFull && push_status(old(bridge)@, scancode)
            == PushStatus::Stored && push_woken(old(bridge)@, scancode) is Some,
{
    match &mut bridge.queue {
        Some(queue) => {
            match push_scancode(queue, scancode) {
                Ok(()) => {
                    let mut wake_result: Result<(), FatalError> = Ok(());
                    match &bridge.waker {
                        Some(waker) => {
                            wake_result = waker.wake_by_ref();
                        },
                        None => {},
                    }
                    bridge.waker = None;
                    match wake_result {
                        Ok(()) => Ok(PushStatus::Stored),
                        Err(e) => Err(e),
                    }
                },
                Err(_) => Ok(PushStatus::DroppedFull),
            }
        },
        None => Ok(PushStatus::DroppedUninitialized),
    }
}

/// The single consumer's pull handle on the event bridge. Constructing it
/// initializes the bridge's buffer; only one may ever exist per bridge.
pub struct ScancodeStream {
    _private: (),
}

/// What one pull attempt reports: an event byte, or "nothing yet, the waker
/// is registered".
#[derive(Clone, Copy, Debug, PartialEq, Eq, Structural)]
pub enum ScancodePoll {
    Ready(u8),
    Pending,
}

impl ScancodeStream {
    /// Initializes the bridge's buffer and hands out the one pull handle.
    /// Constructing a second consumer for the same bridge is a fatal
    /// programming error; the precondition excludes it, since verified
    /// functions never panic.
    pub fn new(bridge: &mut EventBridge) -> (stream: ScancodeStream)
        requires
            !old(bridge)@.initialized,
        ensures
            final(bridge)@.initialized,
            final(bridge)@.events == Seq::<u8>::empty(),
            final(bridge)@.capacity == SCANCODE_QUEUE_CAPACITY,
            final(bridge)@.waker == old(bridge)@.waker,
    {
        bridge.queue = Some(new_scancode_queue(SCANCODE_QUEUE_CAPACITY));
        ScancodeStream { _private: () }
    }

    /// One pull attempt. Fast path: take the oldest buffered byte without
    /// touching the waker slot. Otherwise register the caller's waker and
    /// check the buffer once more, so that a push racing between the first
    /// check and the registration is still returned from this very call
    /// (withdrawing the registration) instead of relying on a wakeup that
    /// fired before the registration completed. Only when the buffer is still
    /// empty after the second check does the pull suspend.
    pub fn poll_next(&mut self, bridge: &mut EventBridge, waker: &WakerHandle) -> (r: ScancodePoll)
        requires
            old(bridge)@.initialized,
        ensures
            final(bridge)@.initialized,
            final(bridge)@.capacity == old(bridge)@.capacity,
            old(bridge)@.events.len() > 0 ==> r == ScancodePoll::Ready(old(bridge)@.events[0])
                && final(bridge)@.events == old(bridge)@.events.drop_first()
                && final(bridge)@.waker == old(bridge)@.waker,
            old(bridge)@.events.len() == 0 ==> r == ScancodePoll::Pending && final(bridge)@.events
                == old(bridge)@.events && final(bridge)@.waker == Some(*waker),
    {
        match &mut bridge.queue {
            Some(queue) => {
                // fast path
                match pop_scancode(queue) {
                    Some(code) => {
                        return ScancodePoll::Ready(code);
                    },
                    None => {},
                }
                bridge.waker = Some(waker.clone());
                match pop_scancode(queue) {
                    Some(code) => {
                        // a push raced in; withdraw the registration
                        bridge.waker = None;
                        ScancodePoll::Ready(code)
                    },
                    None => ScancodePoll::Pending,
                }
            },
            None => {
                // unreachable: the bridge is initialized, so the buffer
                // exists
                proof {
                    assert(false);
                }
                ScancodePoll::Pending
            },
        }
    }
}

#[verifier::external_type_specification]
#[verifier::external_body]
pub struct ExKeyEvent(KeyEvent);

/// The stateful scancode decoder for the US 104-key layout. Verus refuses the
/// generic declaration of the outside decoder type (its generics are bounded
/// by outside traits), so the whole struct is held opaque and reached only
/// through the trusted functions below.
#[verifier::external_body]
pub struct Keyboard {
    inner: PS2Keyboard<Us104Key, ScancodeSet1>,
}

/// A decoded key, as the screen will show it: a character, or the debug text
/// of a key that has no character.
#[derive(Debug, PartialEq, Eq)]
pub enum DecodedInput {
    Unicode(char),
    RawKey(String),
}

/// Relies on PS2Keyboard::new: a fresh scancode-set-1 decoder for the US
/// 104-key layout that passes control characters through unchanged.
#[verifier::external_body]
fn new_decoder() -> Keyboard {
    Keyboard { inner: PS2Keyboard::new(ScancodeSet1::new(), Us104Key, HandleControl::Ignore) }
}

/// Relies on PS2Keyboard::add_byte: advances the stateful scancode decoder by
/// one raw byte, yielding a key event when one completes. A malformed byte
/// (decode error) is treated like an incomplete sequence, as the surrounding
/// handlers do.
#[verifier::external_body]
fn keyboard_add_byte(keyboard: &mut Keyboard, scancode: u8) -> Option<KeyEvent> {
    match keyboard.inner.add_byte(scancode) {
        Ok(event) => event,
        Err(_) => None,
    }
}

/// Relies on PS2Keyboard::process_keyevent: applies the layout and the
/// current modifier state to a key event. The two variants of the decoded key
/// are carried over one to one; a raw key is carried as its debug text.
#[verifier::external_body]
fn keyboard_process_keyevent(keyboard: &mut Keyboard, event: KeyEvent) -> Option<DecodedInput> {
    match keyboard.inner.process_keyevent(event) {
        Some(DecodedKey::Unicode(character)) => Some(DecodedInput::Unicode(character)),
        Some(DecodedKey::RawKey(key)) => Some(DecodedInput::RawKey(format!("{:?}", key))),
        None => None,
    }
}

impl Keyboard {
    /// A fresh decoder with no accumulated state.
    pub fn new() -> Keyboard {
        new_decoder()
    }
}

/// The endless keypress-printing computation: it claims the bridge's one
/// consumer handle and, each time it is polled, prints every buffered
/// keypress. Spawned once at boot; it never completes.
pub fn print_keypress(bridge: &mut EventBridge) -> (c: crate::task::Computation)
    requires
        !old(bridge)@.initialized,
    ensures
        final(bridge)@.initialized,
        final(bridge)@.events == Seq::<u8>::empty(),
        final(bridge)@.capacity == SCANCODE_QUEUE_CAPACITY,
        final(bridge)@.waker == old(bridge)@.waker,
        c is Keypresses,
{
    let stream = ScancodeStream::new(bridge);
    crate::task::Computation::Keypresses { stream, keyboard: Keyboard::new() }
}

/// Feeds one raw scancode byte through the stateful decoder and prints
/// whatever key it completes: a character as itself, a raw key as its debug
/// text. What the byte decodes to depends on the decoder's accumulated state,
/// so only the screen's well-formedness is promised.
pub fn handle_scancode(keyboard: &mut Keyboard, writer: &mut Writer, scancode: u8)
    requires
        screen_wf(old(writer)@),
    ensures
        screen_wf(final(writer)@),
{
    match keyboard_add_byte(keyboard, scancode) {
        Some(event) => {
            match keyboard_process_keyevent(keyboard, event) {
                Some(DecodedInput::Unicode(character)) => {
                    writer.write_char(character);
                },
                Some(DecodedInput::RawKey(key_text)) => {
                    writer.write_string(key_text.as_str());
                },
                None => {},
            }
        },
        None => {},
    }
}

} // verus!

