//! A cooperative, single-core task runtime: an executor that drains a shared
//! ready queue of task ids, a task abstraction over a closed set of resumable
//! computations, and an interrupt-to-async event bridge that hands raw event
//! bytes from producer context to an async consumer without blocking.

pub mod allocator;
pub mod bump;
pub mod executor;
pub mod fixed_size_block;
pub mod interrupts;
pub mod keyboard;
pub mod linked_list;
pub mod queue;
pub mod simple_executor;
pub mod task;
pub mod vga_buffer;
