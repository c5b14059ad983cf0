//! The executor and its wakeup relay. The executor owns the task table and
//! the waker cache, holds one handle to the shared ready queue, and drains
//! ready task ids, polling each task once per wakeup. A wakeup relay turns
//! a wakeup notification for one task into an enqueue of that task's id, so
//! the next drain pass picks the task up again.

use vstd::prelude::*;

use crate::keyboard::EventBridge;
use crate::queue::ReadyQueue;
use crate::task::{PollStatus, Task};
use crate::vga_buffer::{screen_wf, Writer};
use std::collections::BTreeMap;

verus! {

/// Conditions the scheduler cannot recover from; the surrounding kernel
/// reports them and halts.
#[derive(Clone, Copy, Debug, PartialEq, Eq, Structural)]
pub enum FatalError {
    /// A wakeup could not be enqueued: more wakeups were outstanding than
    /// tasks that could possibly exist.
    ReadyQueueFull,
}

/// The wakeup relay of one task: wakes the task by pushing its id onto the
/// shared ready queue.
pub struct TaskWaker {
    task_id: u64,
    task_queue: ReadyQueue,
}

impl TaskWaker {
    /// The id of the task this relay wakes.
    pub closed spec fn id(self) -> u64 {
        self.task_id
    }

    /// Re-enqueues the task's id. A full ready queue is a scheduler overload
    /// and fatal.
    fn wake_task(&self) -> (r: Result<(), FatalError>)
        ensures
            r is Err ==> r->Err_0 == FatalError::ReadyQueueFull,
    {
        match self.task_queue.push(self.task_id) {
            Ok(()) => Ok(()),
            Err(_) => Err(FatalError::ReadyQueueFull),
        }
    }

    /// Wakes by consuming this relay handle.
    pub fn wake(self) -> (r: Result<(), FatalError>)
        ensures
            r is Err ==> r->Err_0 == FatalError::ReadyQueueFull,
    {
        self.wake_task()
    }

    /// Wakes through a shared reference; the handle stays usable for the next
    /// suspension of the task.
    pub fn wake_by_ref(&self) -> (r: Result<(), FatalError>)
        ensures
            r is Err ==> r->Err_0 == FatalError::ReadyQueueFull,
    {
        self.wake_task()
    }

    /// Builds the wakeup handle of a task from its id and a handle to the
    /// shared ready queue.
    pub fn new(task_id: u64, task_queue: ReadyQueue) -> (w: WakerHandle)
        ensures
            w.woken_task() == Some(task_id),
    {
        WakerHandle::Task(TaskWaker { task_id, task_queue })
    }
}

impl Clone for TaskWaker {
    /// The clone relays to the same task through the same queue.
    fn clone(&self) -> (r: Self)
        ensures
            r == *self,
    {
        TaskWaker { task_id: self.task_id, task_queue: self.task_queue.clone() }
    }
}

/// A generic wakeup handle: either a relay to a task, or a handle that wakes
/// nobody (used by the simple executor, which re-polls everything anyway).
pub enum WakerHandle {
    Noop,
    Task(TaskWaker),
}

/// A handle that wakes nobody.
pub fn dummy_waker() -> (w: WakerHandle)
    ensures
        w.woken_task() == Option::<u64>::None,
{
    WakerHandle::Noop
}

impl WakerHandle {
    /// The id of the task this handle wakes, if it wakes one.
    pub open spec fn woken_task(self) -> Option<u64> {
        match self {
            WakerHandle::Noop => None,
            WakerHandle::Task(w) => Some(w.id()),
        }
    }

    /// The id of the task this handle wakes, if it wakes one.
    pub fn woken_task_id(&self) -> (r: Option<u64>)
        ensures
            r == self.woken_task(),
    {
        match self {
            WakerHandle::Noop => None,
            WakerHandle::Task(w) => Some(w.task_id),
        }
    }

    /// Wakes the task behind this handle, if any. A full ready queue is
    /// fatal.
    pub fn wake_by_ref(&self) -> (r: Result<(), FatalError>)
        ensures
            r is Err ==> r->Err_0 == FatalError::ReadyQueueFull,
            self is Noop ==> r is Ok,
    {
        match self {
            WakerHandle::Noop => Ok(()),
            WakerHandle::Task(w) => w.wake_by_ref(),
        }
    }
}

impl Clone for WakerHandle {
    /// The clone wakes the same task (or, for a no-op handle, none).
    fn clone(&self) -> (r: Self)
        ensures
            r == *self,
    {
        match self {
            WakerHandle::Noop => WakerHandle::Noop,
            WakerHandle::Task(w) => WakerHandle::Task(w.clone()),
        }
    }
}

/// How many wakeups the ready queue can hold. Overflow is fatal: it would
/// mean more wakeups are outstanding than tasks that could possibly exist.
pub const READY_QUEUE_CAPACITY: usize = 100;

/// What became of one popped wakeup.
#[derive(Clone, Copy, Debug, PartialEq, Eq, Structural)]
pub enum WakeupOutcome {
    /// The task no longer exists (a stale or duplicate wakeup for a task that
    /// already completed); skipped, this is expected.
    Stale,
    /// The task was polled exactly once and reported this status.
    Polled(PollStatus),
}

/// The executor: the task table, the waker cache, and one handle to the
/// shared ready queue. It alone removes tasks and cache entries; wakers and
/// interrupt handlers only push ids onto the queue.
pub struct Executor {
    tasks: BTreeMap<u64, Task>,
    task_queue: ReadyQueue,
    waker_cache: BTreeMap<u64, WakerHandle>,
    spawned: Ghost<Set<u64>>,
    completed: Ghost<Set<u64>>,
    polled: Ghost<Seq<u64>>,
}

impl Executor {
    /// The task table: every live task, keyed by its id.
    pub closed spec fn tasks_view(self) -> Map<u64, Task> {
        self.tasks@
    }

    /// The waker cache: the wakeup handle of every task that has been polled
    /// at least once and still lives.
    pub closed spec fn cache_view(self) -> Map<u64, WakerHandle> {
        self.waker_cache@
    }

    /// Every id ever spawned on this executor.
    pub closed spec fn spawned_ids(self) -> Set<u64> {
        self.spawned@
    }

    /// Every id whose task ran to completion. Disjoint from the task table:
    /// a completed task is gone for good.
    pub closed spec fn completed_ids(self) -> Set<u64> {
        self.completed@
    }

    /// The ids this executor has polled, in order, each entry one poll.
    pub closed spec fn polled_ids(self) -> Seq<u64> {
        self.polled@
    }

    /// The executor's invariant: table keys match task ids and were all
    /// spawned; the cache holds only live tasks' relays, each relaying to its
    /// own task; completed ids never reappear in the table.
    pub open spec fn wf(self) -> bool {
        &&& forall|id: u64|
            self.tasks_view().contains_key(id) ==> (#[trigger] self.tasks_view()[id]).id() == id
        &&& self.cache_view().dom().subset_of(self.tasks_view().dom())
        &&& forall|id: u64|
            self.cache_view().contains_key(id) ==> (#[trigger] self.cache_view()[id]).woken_task()
                == Some(id)
        &&& self.completed_ids().disjoint(self.tasks_view().dom())
        &&& self.tasks_view().dom().subset_of(self.spawned_ids())
        &&& self.completed_ids().subset_of(self.spawned_ids())
    }

    /// An executor with no tasks, an empty cache, and a fresh ready queue.
    pub fn new() -> (e: Executor)
        ensures
            e.wf(),
            e.tasks_view() == Map::<u64, Task>::empty(),
            e.cache_view() == Map::<u64, WakerHandle>::empty(),
            e.spawned_ids() == Set::<u64>::empty(),
            e.completed_ids() == Set::<u64>::empty(),
            e.polled_ids() == Seq::<u64>::empty(),
    {
        Executor {
            tasks: BTreeMap::new(),
            task_queue: ReadyQueue::new(READY_QUEUE_CAPACITY),
            waker_cache: BTreeMap::new(),
            spawned: Ghost(Set::empty()),
            completed: Ghost(Set::empty()),
            polled: Ghost(Seq::empty()),
        }
    }

    /// Registers the task in the table and pushes its id onto the ready
    /// queue, so that it is polled on the next drain pass. Never blocks.
    /// Spawning an id twice is a fault of the id generator, not a user
    /// error; it would be fatal, so the precondition excludes it, since
    /// verified functions never panic. A full ready queue is the fatal
    /// overload condition.
    pub fn spawn(&mut self, task: Task) -> (r: Result<(), FatalError>)
        requires
            old(self).wf(),
            !old(self).spawned_ids().contains(task.id()),
        ensures
            final(self).wf(),
            final(self).tasks_view() == old(self).tasks_view().insert(task.id(), task),
            final(self).cache_view() == old(self).cache_view(),
            final(self).spawned_ids() == old(self).spawned_ids().insert(task.id()),
            final(self).completed_ids() == old(self).completed_ids(),
            final(self).polled_ids() == old(self).polled_ids(),
            r is Err ==> r->Err_0 == FatalError::ReadyQueueFull,
    {
        let task_id = task.task_id();
        self.spawned = Ghost(self.spawned@.insert(task_id));
        self.tasks.insert(task_id, task);
        match self.task_queue.push(task_id) {
            Ok(()) => Ok(()),
            Err(_) => Err(FatalError::ReadyQueueFull),
        }
    }

    /// Handles one popped wakeup: a stale id (no longer in the table) is
    /// skipped and nothing changes; a live task has its relay fetched from
    /// the cache (or built and cached on its first poll) and is polled
    /// exactly once. Completion removes the task and its cached relay
    /// together, immediately; a pending task stays, suspended, and is polled
    /// again only after a future wakeup re-enqueues its id.
    pub fn poll_one(&mut self, task_id: u64, bridge: &mut EventBridge, screen: &mut Writer) -> (r:
        WakeupOutcome)
        requires
            old(self).wf(),
            old(bridge)@.initialized,
            screen_wf(old(screen)@),
        ensures
            final(self).wf(),
            final(bridge)@.initialized,
            final(bridge)@.capacity == old(bridge)@.capacity,
            screen_wf(final(screen)@),
            final(self).spawned_ids() == old(self).spawned_ids(),
            old(self).completed_ids().subset_of(final(self).completed_ids()),
            // a wakeup for a task that is gone (completed among them) is
            // skipped: polled once more never, state untouched
            !old(self).tasks_view().contains_key(task_id) ==> r == WakeupOutcome::Stale && final(self).tasks_view() == old(self).tasks_view() && final(self).cache_view() == old(self).cache_view() && final(self).completed_ids() == old(self).completed_ids() && final(self).polled_ids() == old(self).polled_ids() && *final(bridge) == *old(bridge) && *final(screen) == *old(screen),
            // a live task is polled exactly once
            old(self).tasks_view().contains_key(task_id) ==> final(self).polled_ids() == old(self).polled_ids().push(task_id) && (r == WakeupOutcome::Polled(PollStatus::Ready) || r
                == WakeupOutcome::Polled(PollStatus::Pending)),
            // completion removes task and cached relay together, and the id
            // joins the completed set for good
            old(self).tasks_view().contains_key(task_id) && r == WakeupOutcome::Polled(
                PollStatus::Ready,
            ) ==> final(self).tasks_view() == old(self).tasks_view().remove(task_id) && final(self).cache_view() == old(self).cache_view().remove(task_id) && final(self).completed_ids()
                == old(self).completed_ids().insert(task_id),
            // a pending task stays in the table, its relay cached
            old(self).tasks_view().contains_key(task_id) && r == WakeupOutcome::Polled(
                PollStatus::Pending,
            ) ==> final(self).tasks_view().dom() == old(self).tasks_view().dom() && final(self).cache_view().dom() == old(self).cache_view().dom().insert(task_id) && final(self).completed_ids() == old(self).completed_ids(),
            // what the poll did follows the task's computation
            old(self).tasks_view().contains_key(task_id) ==> (old(self).tasks_view()[task_id].computation() matches crate::task::Computation::Immediate(
                value,
            ) ==> (r == WakeupOutcome::Polled(PollStatus::Ready) && final(screen)@
                == crate::task::number_report(old(screen)@, value) && *final(bridge) == *old(bridge))),
            old(self).tasks_view().contains_key(task_id)
                && old(self).tasks_view()[task_id].computation() is AwaitScancode && old(bridge)@.events.len() > 0 ==> (r == WakeupOutcome::Polled(PollStatus::Ready) && final(bridge)@.events == old(bridge)@.events.drop_first() && final(screen)@
                == crate::vga_buffer::screen_write_byte(old(screen)@, old(bridge)@.events[0])),
            old(self).tasks_view().contains_key(task_id)
                && old(self).tasks_view()[task_id].computation() is AwaitScancode && old(bridge)@.events.len() == 0 ==> (r == WakeupOutcome::Polled(PollStatus::Pending) && final(bridge)@.events == old(bridge)@.events && (final(bridge)@.waker matches Some(w)
                && w.woken_task() == Some(task_id))),
            old(self).tasks_view().contains_key(task_id)
                && old(self).tasks_view()[task_id].computation() is Keypresses ==> (r
                == WakeupOutcome::Polled(PollStatus::Pending) && final(bridge)@.events.len() == 0
                && (final(bridge)@.waker matches Some(w) && w.woken_task() == Some(task_id))),
    {
        let task_opt = self.tasks.remove(&task_id);
        match task_opt {
            None => {
                proof {
                    assert(self.tasks@ =~= old(self).tasks@);
                }
                WakeupOutcome::Stale
            },
            Some(mut task) => {
                if !self.waker_cache.contains_key(&task_id) {
                    // no relay exists yet for this id, so cache a fresh one
                    let waker = TaskWaker::new(task_id, self.task_queue.clone());
                    self.waker_cache.insert(task_id, waker);
                }
                let status = match self.waker_cache.get(&task_id) {
                    Some(waker) => task.poll(bridge, screen, waker),
                    None => {
                        // unreachable: the relay was cached just above
                        proof {
                            assert(false);
                        }
                        PollStatus::Pending
                    },
                };
                self.polled = Ghost(self.polled@.push(task_id));
                match status {
                    PollStatus::Ready => {
                        self.waker_cache.remove(&task_id);
                        self.completed = Ghost(self.completed@.insert(task_id));
                        WakeupOutcome::Polled(PollStatus::Ready)
                    },
                    PollStatus::Pending => {
                        self.tasks.insert(task_id, task);
                        WakeupOutcome::Polled(PollStatus::Pending)
                    },
                }
            },
        }
    }

    /// The drain phase: pops wakeups until the ready queue reports empty,
    /// handling each as [`Self::poll_one`] does. One pass handles at most one
    /// queue's worth of wakeups before control returns to the caller's
    /// drain/idle loop, which re-checks for work before sleeping; this bounds
    /// the work done per pass and keeps scheduling latency predictable. No
    /// task is polled more than once per pop, a completed task's id is never
    /// polled again, and ids polled in this pass were all spawned.
    pub fn run_ready_tasks(&mut self, bridge: &mut EventBridge, screen: &mut Writer)
        requires
            old(self).wf(),
            old(bridge)@.initialized,
            screen_wf(old(screen)@),
        ensures
            final(self).wf(),
            final(bridge)@.initialized,
            final(bridge)@.capacity == old(bridge)@.capacity,
            screen_wf(final(screen)@),
            final(self).spawned_ids() == old(self).spawned_ids(),
            old(self).completed_ids().subset_of(final(self).completed_ids()),
            old(self).polled_ids().is_prefix_of(final(self).polled_ids()),
            forall|i: int|
                old(self).polled_ids().len() <= i < final(self).polled_ids().len() ==> final(self).spawned_ids().contains(#[trigger] final(self).polled_ids()[i]) && !old(self).completed_ids().contains(final(self).polled_ids()[i]),
    {
        let mut budget: usize = READY_QUEUE_CAPACITY;
        let mut done = false;
        while !done
            invariant
                self.wf(),
                bridge@.initialized,
                bridge@.capacity == old(bridge)@.capacity,
                screen_wf(screen@),
                self.spawned_ids() == old(self).spawned_ids(),
                old(self).completed_ids().subset_of(self.completed_ids()),
                old(self).polled_ids().is_prefix_of(self.polled_ids()),
                !done ==> budget >= 1,
                forall|i: int|
                    old(self).polled_ids().len() <= i < self.polled_ids().len() ==> self.spawned_ids().contains(
                        #[trigger] self.polled_ids()[i],
                    ) && !old(self).completed_ids().contains(self.polled_ids()[i]),
            decreases budget,
        {
            budget = budget - 1;
            match self.task_queue.pop() {
                Some(task_id) => {
                    self.poll_one(task_id, bridge, screen);
                },
                None => {
                    done = true;
                },
            }
            if budget == 0 {
                done = true;
            }
        }
    }

    /// How many tasks live in the table.
    pub fn task_count(&self) -> (n: usize)
        ensures
            n == self.tasks_view().len(),
    {
        self.tasks.len()
    }

    /// How many wakeup relays the cache holds.
    pub fn waker_cache_count(&self) -> (n: usize)
        ensures
            n == self.cache_view().len(),
    {
        self.waker_cache.len()
    }

    /// Whether a task with this id lives in the table.
    pub fn contains_task(&self, task_id: u64) -> (r: bool)
        ensures
            r == self.tasks_view().contains_key(task_id),
    {
        self.tasks.contains_key(&task_id)
    }

    /// Whether the ready queue was observed empty: the idle decision. The
    /// surrounding kernel takes it with interrupts disabled and, only when it
    /// holds, halts the processor with interrupts re-enabled in one step, so
    /// that no wakeup racing the check is lost.
    pub fn ready_queue_is_empty(&self) -> bool {
        self.task_queue.is_empty()
    }
}

} // verus!
