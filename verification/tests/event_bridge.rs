//! The event bridge: initialization, ordering, backpressure, and the waker
//! slot.

use ruost::executor::dummy_waker;
use ruost::keyboard::{add_scancode, EventBridge, PushStatus, ScancodePoll, ScancodeStream};

#[test]
fn push_before_consumer_is_dropped() {
    let mut bridge = EventBridge::new();
    assert!(!bridge.is_initialized());
    let status = add_scancode(&mut bridge, 7).unwrap();
    assert_eq!(status, PushStatus::DroppedUninitialized);
    // the byte really is gone: a consumer created afterwards sees nothing
    let mut stream = ScancodeStream::new(&mut bridge);
    let waker = dummy_waker();
    assert_eq!(stream.poll_next(&mut bridge, &waker), ScancodePoll::Pending);
}

#[test]
fn events_come_out_in_push_order() {
    let mut bridge = EventBridge::new();
    let mut stream = ScancodeStream::new(&mut bridge);
    for code in [10u8, 20, 30, 40, 50] {
        assert_eq!(add_scancode(&mut bridge, code).unwrap(), PushStatus::Stored);
    }
    let waker = dummy_waker();
    for code in [10u8, 20, 30, 40, 50] {
        assert_eq!(stream.poll_next(&mut bridge, &waker), ScancodePoll::Ready(code));
    }
    assert_eq!(stream.poll_next(&mut bridge, &waker), ScancodePoll::Pending);
}

#[test]
fn full_buffer_drops_newest_and_keeps_the_rest() {
    let mut bridge = EventBridge::new();
    let mut stream = ScancodeStream::new(&mut bridge);
    // fill the buffer to its capacity of 100
    for i in 0..100u32 {
        let status = add_scancode(&mut bridge, (i % 251) as u8).unwrap();
        assert_eq!(status, PushStatus::Stored);
    }
    // the 101st event is the one that is dropped
    assert_eq!(add_scancode(&mut bridge, 255).unwrap(), PushStatus::DroppedFull);
    // the first 100 are still there, unchanged and in order
    let waker = dummy_waker();
    for i in 0..100u32 {
        assert_eq!(
            stream.poll_next(&mut bridge, &waker),
            ScancodePoll::Ready((i % 251) as u8)
        );
    }
    assert_eq!(stream.poll_next(&mut bridge, &waker), ScancodePoll::Pending);
}

#[test]
fn empty_pull_registers_the_waker_and_data_pull_does_not_touch_it() {
    let mut bridge = EventBridge::new();
    let mut stream = ScancodeStream::new(&mut bridge);
    let waker = dummy_waker();
    assert_eq!(bridge.registered_task(), None);
    // an empty pull suspends and leaves the waker registered
    assert_eq!(stream.poll_next(&mut bridge, &waker), ScancodePoll::Pending);
    // a no-op waker has no task; the slot itself is occupied nonetheless
    assert_eq!(bridge.registered_task(), None);
    // a pushed byte is returned by the next pull (fast path)
    assert_eq!(add_scancode(&mut bridge, 9).unwrap(), PushStatus::Stored);
    assert_eq!(stream.poll_next(&mut bridge, &waker), ScancodePoll::Ready(9));
}
