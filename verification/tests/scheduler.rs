//! The executor, the wakeup path through the ready queue, and the simple
//! round-robin executor.

use ruost::executor::{Executor, WakeupOutcome};
use ruost::keyboard::{add_scancode, print_keypress, EventBridge, PushStatus, ScancodeStream};
use ruost::simple_executor::SimpleExecutor;
use ruost::task::{Computation, IdCounter, PollStatus, Task};
use ruost::vga_buffer::{Color, ColorCode, Writer, BUFFER_HEIGHT};

fn fresh_writer() -> Writer {
    Writer::new(ColorCode::new(Color::Magenta, Color::Black))
}

fn row_text(writer: &Writer, row: usize, len: usize) -> String {
    let mut text = String::new();
    for col in 0..len {
        text.push(writer.char_at(row, col).ascii_character as char);
    }
    text
}

#[test]
fn immediate_task_completes_on_first_drain() {
    let mut counter = IdCounter::new();
    let mut bridge = EventBridge::new();
    let _stream = ScancodeStream::new(&mut bridge);
    let mut writer = fresh_writer();
    let mut executor = Executor::new();
    executor.spawn(Task::new(Computation::Immediate(42), &mut counter)).unwrap();
    assert_eq!(executor.task_count(), 1);
    executor.run_ready_tasks(&mut bridge, &mut writer);
    // the task is gone from the table, no relay was left behind, and the
    // report line has scrolled onto the second-to-last row
    assert_eq!(executor.task_count(), 0);
    assert_eq!(executor.waker_cache_count(), 0);
    assert!(executor.ready_queue_is_empty());
    assert_eq!(row_text(&writer, BUFFER_HEIGHT - 2, 16), "async number: 42");
}

#[test]
fn wakeup_for_completed_task_is_skipped() {
    let mut counter = IdCounter::new();
    let mut bridge = EventBridge::new();
    let _stream = ScancodeStream::new(&mut bridge);
    let mut writer = fresh_writer();
    let mut executor = Executor::new();
    let task = Task::new(Computation::Immediate(1), &mut counter);
    let id = task.task_id();
    executor.spawn(task).unwrap();
    executor.run_ready_tasks(&mut bridge, &mut writer);
    assert_eq!(executor.task_count(), 0);
    // a stale wakeup for the completed task changes nothing and polls nobody
    let outcome = executor.poll_one(id, &mut bridge, &mut writer);
    assert_eq!(outcome, WakeupOutcome::Stale);
    assert_eq!(executor.task_count(), 0);
    assert_eq!(executor.waker_cache_count(), 0);
}

#[test]
fn end_to_end_event_wakes_awaiting_task() {
    let mut counter = IdCounter::new();
    let mut bridge = EventBridge::new();
    let stream = ScancodeStream::new(&mut bridge);
    let mut writer = fresh_writer();
    let mut executor = Executor::new();

    // task A completes immediately with its fixed value; task B awaits one
    // event byte
    let task_a = Task::new(Computation::Immediate(42), &mut counter);
    let task_b = Task::new(Computation::AwaitScancode(stream), &mut counter);
    let id_b = task_b.task_id();
    executor.spawn(task_a).unwrap();
    executor.spawn(task_b).unwrap();

    // first drain pass: A runs to completion, B suspends with its waker in
    // the bridge's slot
    executor.run_ready_tasks(&mut bridge, &mut writer);
    assert_eq!(executor.task_count(), 1);
    assert_eq!(executor.waker_cache_count(), 1);
    assert_eq!(row_text(&writer, BUFFER_HEIGHT - 2, 16), "async number: 42");
    assert_eq!(bridge.registered_task(), Some(id_b));
    assert!(executor.ready_queue_is_empty());

    // one event arrives: it is stored and B's id is enqueued through the
    // registered relay
    assert_eq!(add_scancode(&mut bridge, 65).unwrap(), PushStatus::Stored);
    assert!(!executor.ready_queue_is_empty());
    assert_eq!(bridge.registered_task(), None);

    // next drain pass: B consumes the byte, prints it, and completes; both
    // tables are empty and the executor would now idle
    executor.run_ready_tasks(&mut bridge, &mut writer);
    assert_eq!(executor.task_count(), 0);
    assert_eq!(executor.waker_cache_count(), 0);
    assert!(executor.ready_queue_is_empty());
    assert_eq!(writer.char_at(BUFFER_HEIGHT - 1, 0).ascii_character, 65);
}

#[test]
fn rewaking_before_next_poll_wakes_once() {
    let mut counter = IdCounter::new();
    let mut bridge = EventBridge::new();
    let stream = ScancodeStream::new(&mut bridge);
    let mut writer = fresh_writer();
    let mut executor = Executor::new();
    let task = Task::new(Computation::AwaitScancode(stream), &mut counter);
    executor.spawn(task).unwrap();
    executor.run_ready_tasks(&mut bridge, &mut writer);
    assert_eq!(executor.task_count(), 1);

    // three events before the task is polled again: only the first takes the
    // waker out of the slot, so only one wakeup is enqueued
    assert_eq!(add_scancode(&mut bridge, 1).unwrap(), PushStatus::Stored);
    assert_eq!(add_scancode(&mut bridge, 2).unwrap(), PushStatus::Stored);
    assert_eq!(add_scancode(&mut bridge, 3).unwrap(), PushStatus::Stored);
    assert_eq!(bridge.registered_task(), None);

    // the one wakeup polls the task exactly once; it takes the oldest byte
    // and completes, and the drain finds no second wakeup for it
    executor.run_ready_tasks(&mut bridge, &mut writer);
    assert_eq!(executor.task_count(), 0);
    assert!(executor.ready_queue_is_empty());
    assert_eq!(writer.char_at(BUFFER_HEIGHT - 1, 0).ascii_character, 1);
}

#[test]
fn keypress_task_prints_decoded_keys() {
    let mut counter = IdCounter::new();
    let mut bridge = EventBridge::new();
    let mut writer = fresh_writer();
    let mut executor = Executor::new();
    let computation = print_keypress(&mut bridge);
    executor.spawn(Task::new(computation, &mut counter)).unwrap();

    // press 'a' then 'b' (scancode set 1 make codes), delivered as interrupt
    // bytes before the drain
    assert_eq!(add_scancode(&mut bridge, 0x1E).unwrap(), PushStatus::Stored);
    assert_eq!(add_scancode(&mut bridge, 0x30).unwrap(), PushStatus::Stored);
    executor.run_ready_tasks(&mut bridge, &mut writer);

    // the endless printer never completes: it stays in the table, suspended
    assert_eq!(executor.task_count(), 1);
    assert_eq!(row_text(&writer, BUFFER_HEIGHT - 1, 2), "ab");
    assert!(executor.ready_queue_is_empty());
}

#[test]
fn simple_executor_polls_every_spawned_task() {
    let mut counter = IdCounter::new();
    let mut bridge = EventBridge::new();
    let _stream = ScancodeStream::new(&mut bridge);
    let mut writer = fresh_writer();
    let mut executor = SimpleExecutor::new();
    executor.spawn(Task::new(Computation::Immediate(1), &mut counter));
    executor.spawn(Task::new(Computation::Immediate(2), &mut counter));
    executor.spawn(Task::new(Computation::Immediate(3), &mut counter));
    assert_eq!(executor.task_count(), 3);
    executor.run(&mut bridge, &mut writer);
    assert_eq!(executor.task_count(), 0);
    // the three report lines scrolled up one row per newline
    assert_eq!(row_text(&writer, BUFFER_HEIGHT - 4, 15), "async number: 1");
    assert_eq!(row_text(&writer, BUFFER_HEIGHT - 3, 15), "async number: 2");
    assert_eq!(row_text(&writer, BUFFER_HEIGHT - 2, 15), "async number: 3");
}

#[test]
fn simple_executor_rests_when_no_task_makes_progress() {
    let mut counter = IdCounter::new();
    let mut bridge = EventBridge::new();
    let stream = ScancodeStream::new(&mut bridge);
    let mut writer = fresh_writer();
    let mut executor = SimpleExecutor::new();
    // a task that waits for an event that never comes: the round-robin run
    // polls it, sees no progress, and comes to rest instead of spinning
    executor.spawn(Task::new(Computation::AwaitScancode(stream), &mut counter));
    executor.run(&mut bridge, &mut writer);
    assert_eq!(executor.task_count(), 1);
}

#[test]
fn task_ids_are_issued_in_order_and_never_reused() {
    let mut counter = IdCounter::new();
    let a = Task::new(Computation::Immediate(0), &mut counter);
    let b = Task::new(Computation::Immediate(0), &mut counter);
    let c = Task::new(Computation::Immediate(0), &mut counter);
    assert_eq!(a.task_id(), 0);
    assert_eq!(b.task_id(), 1);
    assert_eq!(c.task_id(), 2);
}

#[test]
fn overflowing_the_ready_queue_is_the_fatal_overload() {
    let mut counter = IdCounter::new();
    let mut executor = Executor::new();
    // the ready queue holds one wakeup per possible task; the hundred-first
    // spawn without a drain in between cannot enqueue its wakeup
    for _ in 0..100 {
        executor
            .spawn(Task::new(Computation::Immediate(0), &mut counter))
            .unwrap();
    }
    let overflow = executor.spawn(Task::new(Computation::Immediate(0), &mut counter));
    assert_eq!(overflow, Err(ruost::executor::FatalError::ReadyQueueFull));
}

#[test]
fn poll_status_of_each_computation() {
    let mut counter = IdCounter::new();
    let mut bridge = EventBridge::new();
    let stream = ScancodeStream::new(&mut bridge);
    let mut writer = fresh_writer();
    let waker = ruost::executor::dummy_waker();
    let mut immediate = Task::new(Computation::Immediate(7), &mut counter);
    assert_eq!(immediate.poll(&mut bridge, &mut writer, &waker), PollStatus::Ready);
    let mut awaiting = Task::new(Computation::AwaitScancode(stream), &mut counter);
    assert_eq!(awaiting.poll(&mut bridge, &mut writer, &waker), PollStatus::Pending);
    assert_eq!(add_scancode(&mut bridge, 33).unwrap(), PushStatus::Stored);
    assert_eq!(awaiting.poll(&mut bridge, &mut writer, &waker), PollStatus::Ready);
}
