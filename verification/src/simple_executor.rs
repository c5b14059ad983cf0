//! A minimal executor without wakeups: a plain first-in, first-out queue of
//! whole tasks, polled round-robin with a waker that wakes nobody. A pending
//! task goes to the back of the queue and is simply polled again on the next
//! pass; no ready queue and no waker cache exist here.

use vstd::prelude::*;

use crate::executor::dummy_waker;
use crate::keyboard::EventBridge;
use crate::task::{PollStatus, Task};
use crate::vga_buffer::{screen_wf, Writer};
use std::collections::VecDeque;

verus! {

/// The busy-polling executor: a FIFO queue of tasks.
pub struct SimpleExecutor {
    task_queue: VecDeque<Task>,
    polled: Ghost<Seq<u64>>,
}

impl SimpleExecutor {
    /// The queued tasks, front first.
    pub closed spec fn queue_view(self) -> Seq<Task> {
        self.task_queue@
    }

    /// The ids this executor has polled, in order, each entry one poll.
    pub closed spec fn polled_ids(self) -> Seq<u64> {
        self.polled@
    }

    /// An executor with no tasks.
    pub fn new() -> (e: SimpleExecutor)
        ensures
            e.queue_view() == Seq::<Task>::empty(),
            e.polled_ids() == Seq::<u64>::empty(),
    {
        SimpleExecutor { task_queue: VecDeque::new(), polled: Ghost(Seq::empty()) }
    }

    /// Appends a task to the back of the queue. Never blocks and never
    /// fails; the queue grows as needed.
    pub fn spawn(&mut self, task: Task)
        ensures
            final(self).queue_view() == old(self).queue_view().push(task),
            final(self).polled_ids() == old(self).polled_ids(),
    {
        self.task_queue.push_back(task);
    }

    /// How many tasks wait in the queue.
    pub fn task_count(&self) -> (n: usize)
        ensures
            n == self.queue_view().len(),
    {
        self.task_queue.len()
    }

    /// One round-robin pass: polls every task that was queued when the pass
    /// began exactly once, with a waker that wakes nobody. A completed task
    /// leaves; a pending one goes to the back for the next pass.
    fn poll_pass(&mut self, bridge: &mut EventBridge, screen: &mut Writer)
        requires
            old(bridge)@.initialized,
            screen_wf(old(screen)@),
        ensures
            final(bridge)@.initialized,
            final(bridge)@.capacity == old(bridge)@.capacity,
            screen_wf(final(screen)@),
            final(self).queue_view().len() <= old(self).queue_view().len(),
            old(self).polled_ids().is_prefix_of(final(self).polled_ids()),
            forall|i: int|
                0 <= i < old(self).queue_view().len() ==> final(self).polled_ids().contains(
                    (#[trigger] old(self).queue_view()[i]).id(),
                ),
    {
        let ghost q0 = self.task_queue@;
        let pass_size = self.task_queue.len();
        let mut k: usize = 0;
        while k < pass_size
            invariant
                bridge@.initialized,
                bridge@.capacity == old(bridge)@.capacity,
                screen_wf(screen@),
                k <= pass_size,
                pass_size == q0.len(),
                q0 == old(self).task_queue@,
                pass_size - k <= self.task_queue@.len() <= pass_size,
                forall|i: int|
                    0 <= i < pass_size - k ==> self.task_queue@[i] == q0[i + k],
                old(self).polled_ids().is_prefix_of(self.polled_ids()),
                forall|i: int|
                    0 <= i < k ==> self.polled_ids().contains((#[trigger] q0[i]).id()),
            decreases pass_size - k,
        {
            match self.task_queue.pop_front() {
                Some(mut task) => {
                    let ghost previous_polled = self.polled@;
                    let waker = dummy_waker();
                    let status = task.poll(bridge, screen, &waker);
                    self.polled = Ghost(self.polled@.push(task.id()));
                    proof {
                        assert(self.polled@[previous_polled.len() as int] == q0[k as int].id());
                        assert forall|i: int| 0 <= i < k implies self.polled_ids().contains(
                            (#[trigger] q0[i]).id(),
                        ) by {
                            let j = choose|j: int|
                                0 <= j < previous_polled.len() && previous_polled[j] == q0[i].id();
                            assert(self.polled@[j] == q0[i].id());
                        }
                    }
                    match status {
                        PollStatus::Ready => {},
                        PollStatus::Pending => {
                            self.task_queue.push_back(task);
                        },
                    }
                },
                None => {
                    proof {
                        assert(false);
                    }
                },
            }
            k = k + 1;
        }
        proof {
            assert forall|i: int| 0 <= i < old(self).queue_view().len() implies self.polled_ids().contains(
                (#[trigger] old(self).queue_view()[i]).id(),
            ) by {}
        }
    }

    /// Polls the queued tasks round-robin until either every task has
    /// completed or a whole pass completes none (every survivor is waiting
    /// on something no busy-poll will provide). Every task that was queued
    /// when the call began is polled at least once before the executor comes
    /// to rest: no queued task is starved.
    pub fn run(&mut self, bridge: &mut EventBridge, screen: &mut Writer)
        requires
            old(bridge)@.initialized,
            screen_wf(old(screen)@),
        ensures
            final(bridge)@.initialized,
            final(bridge)@.capacity == old(bridge)@.capacity,
            screen_wf(final(screen)@),
            old(self).polled_ids().is_prefix_of(final(self).polled_ids()),
            forall|i: int|
                0 <= i < old(self).queue_view().len() ==> final(self).polled_ids().contains(
                    (#[trigger] old(self).queue_view()[i]).id(),
                ),
    {
        if self.task_queue.len() == 0 {
            return ;
        }
        let mut previous_len = self.task_queue.len();
        self.poll_pass(bridge, screen);
        let mut current_len = self.task_queue.len();
        let mut done = current_len == 0 || current_len >= previous_len;
        while !done
            invariant
                bridge@.initialized,
                bridge@.capacity == old(bridge)@.capacity,
                screen_wf(screen@),
                current_len == self.task_queue@.len(),
                old(self).polled_ids().is_prefix_of(self.polled_ids()),
                forall|i: int|
                    0 <= i < old(self).queue_view().len() ==> self.polled_ids().contains(
                        (#[trigger] old(self).queue_view()[i]).id(),
                    ),
            decreases 2 * current_len + (if done {
                0int
            } else {
                1int
            }),
        {
            previous_len = current_len;
            self.poll_pass(bridge, screen);
            current_len = self.task_queue.len();
            if current_len == 0 || current_len >= previous_len {
                done = true;
            }
            proof {
                assert forall|i: int|
                    0 <= i < old(self).queue_view().len() implies self.polled_ids().contains(
                    (#[trigger] old(self).queue_view()[i]).id(),
                ) by {}
            }
        }
    }
}

} // verus!
