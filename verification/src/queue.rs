//! The shared ready queue: a fixed-capacity, lock-free queue of task ids,
//! held through reference-counted handles by the executor and by every waker.
//! Because any holder of a handle may push concurrently (an interrupt handler
//! among them), nothing here claims to know the queue's contents; each
//! operation states only what holds of every outcome.

use vstd::prelude::*;

use crossbeam_queue::ArrayQueue;
use std::sync::Arc;

verus! {

#[verifier::external_type_specification]
#[verifier::external_body]
#[verifier::reject_recursive_types(T)]
pub struct ExArrayQueue<T>(ArrayQueue<T>);

/// Relies on crossbeam_queue::ArrayQueue::new: building a bounded queue. It
/// panics when the capacity is zero or when no power of two above it fits the
/// index type, so those capacities are excluded here.
#[verifier::external_body]
fn new_id_queue(capacity: usize) -> ArrayQueue<u64>
    requires
        1 <= capacity < usize::MAX / 2,
{
    ArrayQueue::new(capacity)
}

/// Relies on Arc::clone: the clone is a second handle to the same allocation,
/// so it carries the same value.
#[verifier::external_body]
fn clone_id_queue_handle(queue: &Arc<ArrayQueue<u64>>) -> (r: Arc<ArrayQueue<u64>>)
    ensures
        r == *queue,
{
    Arc::clone(queue)
}

/// Relies on crossbeam_queue::ArrayQueue::push: a full queue rejects the
/// element and hands it back in the error. Other handles may push or pop
/// concurrently, so no more is claimed.
#[verifier::external_body]
fn push_id(queue: &Arc<ArrayQueue<u64>>, id: u64) -> (r: Result<(), u64>)
    ensures
        r is Err ==> r->Err_0 == id,
{
    queue.push(id)
}

/// Relies on crossbeam_queue::ArrayQueue::pop: returns the oldest element, or
/// nothing when the queue is observed empty. Other handles may push or pop
/// concurrently, so no more is claimed.
#[verifier::external_body]
fn pop_id(queue: &Arc<ArrayQueue<u64>>) -> Option<u64> {
    queue.pop()
}

/// Relies on crossbeam_queue::ArrayQueue::is_empty: a snapshot that may be
/// outdated the moment it is taken, so no more is claimed.
#[verifier::external_body]
fn id_queue_is_empty(queue: &Arc<ArrayQueue<u64>>) -> bool {
    queue.is_empty()
}

/// A shared handle to the ready queue of task ids. Cloning the handle shares
/// the queue; the executor pops, wakers push.
pub struct ReadyQueue {
    queue: Arc<ArrayQueue<u64>>,
}

impl ReadyQueue {
    /// A fresh queue that holds at most `capacity` ids.
    pub fn new(capacity: usize) -> ReadyQueue
        requires
            1 <= capacity < usize::MAX / 2,
    {
        ReadyQueue { queue: Arc::new(new_id_queue(capacity)) }
    }

    /// Attempts to enqueue a task id; a full queue hands the id back.
    pub fn push(&self, id: u64) -> (r: Result<(), u64>)
        ensures
            r is Err ==> r->Err_0 == id,
    {
        push_id(&self.queue, id)
    }

    /// Attempts to dequeue the oldest task id.
    pub fn pop(&self) -> Option<u64> {
        pop_id(&self.queue)
    }

    /// Whether the queue was observed empty.
    pub fn is_empty(&self) -> bool {
        id_queue_is_empty(&self.queue)
    }
}

impl Clone for ReadyQueue {
    /// The clone is a second handle to the same queue.
    fn clone(&self) -> (r: Self)
        ensures
            r == *self,
    {
        ReadyQueue { queue: clone_id_queue_handle(&self.queue) }
    }
}

} // verus!
