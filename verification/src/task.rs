//! Tasks: uniquely identified, suspendable units of work. A task owns one
//! resumable computation and is polled by an executor until the computation
//! reports completion.

use vstd::prelude::*;

use crate::executor::WakerHandle;
use crate::keyboard::{handle_scancode, EventBridge, Keyboard, ScancodePoll, ScancodeStream};
use crate::vga_buffer::{screen_wf, screen_write_byte, Screen, Writer};
use vstd::string::StringSliceAdditionalSpecFns;

verus! {

/// Identifier of a task. Ids are handed out by an [`IdCounter`] and are never
/// reused, even after the task completes.
#[derive(Clone, Copy, Debug, PartialEq, Eq, Structural)]
pub struct TaskId(u64);

impl TaskId {
    /// The numeric value of the id.
    pub closed spec fn view(self) -> u64 {
        self.0
    }

    /// Draws a fresh id from the counter. Each id is issued at most once.
    pub fn new(counter: &mut IdCounter) -> (id: TaskId)
        requires
            old(counter).next() < u64::MAX,
        ensures
            id@ == old(counter).next(),
            final(counter).next() == old(counter).next() + 1,
    {
        TaskId(counter.fetch_add())
    }

    /// The id as a plain integer.
    pub fn as_u64(self) -> (n: u64)
        ensures
            n == self@,
    {
        self.0
    }
}

/// Monotonically increasing source of task ids. The design keeps one such
/// counter for the whole process, so that no two live tasks ever share an id
/// and ids are never recycled.
pub struct IdCounter {
    next: u64,
}

impl IdCounter {
    /// The next id that will be issued.
    pub closed spec fn next(self) -> u64 {
        self.next
    }

    /// A counter that starts at zero.
    pub fn new() -> (c: IdCounter)
        ensures
            c.next() == 0,
    {
        IdCounter { next: 0 }
    }

    fn fetch_add(&mut self) -> (n: u64)
        requires
            old(self).next() < u64::MAX,
        ensures
            n == old(self).next(),
            final(self).next() == old(self).next() + 1,
    {
        let n = self.next;
        self.next = self.next + 1;
        n
    }
}

/// What one poll of a task reports: the computation finished, or it waits for
/// a wakeup.
#[derive(Clone, Copy, Debug, PartialEq, Eq, Structural)]
pub enum PollStatus {
    Ready,
    Pending,
}

/// The closed set of resumable computations a task can run. Each is polled to
/// completion step by step; a pending computation has registered its waker
/// and is resumed by the next wakeup.
pub enum Computation {
    /// Completes on its first poll, printing its value (the example task).
    Immediate(u32),
    /// Awaits one event byte from the bridge, prints it, and completes.
    AwaitScancode(ScancodeStream),
    /// Pulls event bytes forever, decoding each as a keypress and printing
    /// the decoded key; it never completes.
    Keypresses { stream: ScancodeStream, keyboard: Keyboard },
}

/// The decimal digits of `n`, most significant first, as screen bytes.
pub open spec fn screen_write_digits(s: Screen, n: nat) -> Screen
    decreases n,
{
    if n < 10 {
        screen_write_byte(s, (48 + n) as u8)
    } else {
        screen_write_byte(screen_write_digits(s, n / 10), (48 + n % 10) as u8)
    }
}

/// Writes the decimal digits of a number at the cursor.
fn write_decimal(writer: &mut Writer, value: u32)
    requires
        screen_wf(old(writer)@),
    ensures
        screen_wf(final(writer)@),
        final(writer)@ == screen_write_digits(old(writer)@, value as nat),
    decreases value,
{
    if value >= 10 {
        write_decimal(writer, value / 10);
    }
    writer.write_byte(48 + (value % 10) as u8);
}

/// The screen after the example task's report line: the label, the decimal
/// value, and a newline.
pub open spec fn number_report(s: Screen, value: u32) -> Screen {
    screen_write_byte(
        screen_write_digits(
            crate::vga_buffer::screen_write_bytes(s, "async number: ".spec_bytes()),
            value as nat,
        ),
        10,
    )
}

/// One poll of the endless keypress printer: pulls buffered event bytes until
/// the bridge runs dry, printing each decoded key, then leaves the waker
/// registered and suspends.
fn drain_keypresses(
    stream: &mut ScancodeStream,
    keyboard: &mut Keyboard,
    bridge: &mut EventBridge,
    screen: &mut Writer,
    waker: &WakerHandle,
) -> (r: PollStatus)
    requires
        old(bridge)@.initialized,
        screen_wf(old(screen)@),
    ensures
        r == PollStatus::Pending,
        final(bridge)@.initialized,
        final(bridge)@.capacity == old(bridge)@.capacity,
        final(bridge)@.events.len() == 0,
        final(bridge)@.waker == Some(*waker),
        screen_wf(final(screen)@),
{
    loop
        invariant
            bridge@.initialized,
            bridge@.capacity == old(bridge)@.capacity,
            screen_wf(screen@),
        decreases bridge@.events.len(),
    {
        match stream.poll_next(bridge, waker) {
            ScancodePoll::Ready(code) => {
                handle_scancode(keyboard, screen, code);
            },
            ScancodePoll::Pending => {
                return PollStatus::Pending;
            },
        }
    }
}

/// A uniquely identified, suspendable unit of work: one resumable computation
/// and its id. It lives in an executor's task table until its poll reports
/// completion, and is never polled after that.
pub struct Task {
    id: TaskId,
    future: Computation,
}

impl Task {
    /// The task's id as a plain integer.
    pub closed spec fn id(self) -> u64 {
        self.id@
    }

    /// The computation the task runs.
    pub closed spec fn computation(self) -> Computation {
        self.future
    }

    /// Wraps a computation as a task with a fresh id drawn from the counter.
    pub fn new(future: Computation, counter: &mut IdCounter) -> (task: Task)
        requires
            old(counter).next() < u64::MAX,
        ensures
            task.id() == old(counter).next(),
            final(counter).next() == old(counter).next() + 1,
            task.computation() == future,
    {
        Task { id: TaskId::new(counter), future }
    }

    /// The task's id, for table bookkeeping.
    pub fn task_id(&self) -> (id: u64)
        ensures
            id == self.id(),
    {
        self.id.as_u64()
    }

    /// Advances the computation by one step. Polling has no effect beyond
    /// what the computation performs on the bridge and the screen: an
    /// immediate computation prints its report and completes; an awaiting one
    /// either consumes the oldest buffered event byte (printing it, and
    /// completing if it only awaited one) or registers the waker and
    /// suspends; the endless keypress printer drains the whole buffer,
    /// printing each decoded key, then registers the waker and suspends.
    pub fn poll(&mut self, bridge: &mut EventBridge, screen: &mut Writer, waker: &WakerHandle) -> (r:
        PollStatus)
        requires
            old(bridge)@.initialized,
            screen_wf(old(screen)@),
        ensures
            final(self).id() == old(self).id(),
            (final(self).computation() is Immediate) == (old(self).computation() is Immediate),
            (final(self).computation() is AwaitScancode) == (old(self).computation() is AwaitScancode),
            (final(self).computation() is Keypresses) == (old(self).computation() is Keypresses),
            final(bridge)@.initialized,
            final(bridge)@.capacity == old(bridge)@.capacity,
            screen_wf(final(screen)@),
            old(self).computation() matches Computation::Immediate(value) ==> r
                == PollStatus::Ready && final(screen)@ == number_report(old(screen)@, value)
                && *final(bridge) == *old(bridge),
            old(self).computation() is AwaitScancode && old(bridge)@.events.len() > 0 ==> r
                == PollStatus::Ready && final(screen)@ == screen_write_byte(
                old(screen)@,
                old(bridge)@.events[0],
            ) && final(bridge)@.events == old(bridge)@.events.drop_first() && final(bridge)@.waker
                == old(bridge)@.waker,
            old(self).computation() is AwaitScancode && old(bridge)@.events.len() == 0 ==> r
                == PollStatus::Pending && final(bridge)@.events == old(bridge)@.events
                && final(bridge)@.waker == Some(*waker) && *final(screen) == *old(screen),
            old(self).computation() is Keypresses ==> r == PollStatus::Pending
                && final(bridge)@.events.len() == 0 && final(bridge)@.waker == Some(*waker),
    {
        match &mut self.future {
            Computation::Immediate(value) => {
                screen.write_string("async number: ");
                write_decimal(screen, *value);
                screen.write_byte(10);
                PollStatus::Ready
            },
            Computation::AwaitScancode(stream) => {
                match stream.poll_next(bridge, waker) {
                    ScancodePoll::Ready(code) => {
                        screen.write_byte(code);
                        PollStatus::Ready
                    },
                    ScancodePoll::Pending => PollStatus::Pending,
                }
            },
            Computation::Keypresses { stream, keyboard } => {
                drain_keypresses(stream, keyboard, bridge, screen, waker)
            },
        }
    }
}

} // verus!
