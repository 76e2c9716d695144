//! Slot lifecycle tests: allocation, claiming, the free pool, the
//! state cycle, and deallocation.

use v4l2::device::{DeviceError, RetrievedSlotInfo, Timestamp};
use v4l2::memory::{HandleSet, MemoryHandle, MemoryKind};
use v4l2::qbuf::CaptureQueueable;
use v4l2::queue::{Capture, DequeueError, Output, Queue, QueueInit, TryGetBufferError};
use v4l2::registry::BufferState;

fn user_handles(n: usize, size: usize) -> HandleSet {
    let mut v = Vec::new();
    for _ in 0..n {
        v.push(MemoryHandle::UserPointer(vec![0u8; size]));
    }
    HandleSet::from_handles(MemoryKind::UserPointer, v).ok().unwrap()
}

#[test]
fn allocate_populates_free_slots() {
    let q = Queue::<Capture, QueueInit>::new();
    let q = q.allocate(MemoryKind::UserPointer, Ok(3), vec![4096]).ok().unwrap();
    assert_eq!(q.num_buffers(), 3);
    assert_eq!(q.num_free_buffers(), 3);
    assert_eq!(q.memory_kind(), MemoryKind::UserPointer);
    for i in 0..3 {
        assert!(matches!(q.buffer_state(i), Some(BufferState::Free)));
    }
    assert!(q.buffer_state(3).is_none());
}

#[test]
fn allocate_failure_keeps_init_queue() {
    let q = Queue::<Output, QueueInit>::new();
    let r = q.allocate(MemoryKind::UserPointer, Err(DeviceError { code: 22 }), vec![4096]);
    match r {
        Ok(_) => panic!("allocation must fail when the device call failed"),
        Err((_q, e)) => assert_eq!(e, DeviceError { code: 22 }),
    }
}

#[test]
fn scenario_two_slots_exhaust_free_pool() {
    // Queue allocated with 2 slots, both free.
    let mut q = Queue::<Capture, QueueInit>::new()
        .allocate(MemoryKind::UserPointer, Ok(2), vec![4096])
        .ok()
        .unwrap();
    assert_eq!(q.num_free_buffers(), 2);

    // Claim a slot and submit it with 1 handle (1-plane format).
    let buf = q.try_get_free_buffer().unwrap();
    let first = buf.index();
    assert_eq!(buf.num_expected_planes(), 1);
    let prepared = buf.queue_with_handles(&mut q, user_handles(1, 4096)).ok().unwrap();
    assert!(prepared.complete(&mut q, Ok(())).is_ok());
    assert!(matches!(q.buffer_state(first), Some(BufferState::Queued(_))));

    // Only one free slot remains; the second claim takes the other
    // index and exhausts the pool.
    assert_eq!(q.num_free_buffers(), 1);
    let buf2 = q.try_get_free_buffer().unwrap();
    assert_ne!(buf2.index(), first);
    assert_eq!(q.num_free_buffers(), 0);

    // No free slot is left for a third claim.
    assert!(q.try_get_free_buffer().is_none());
}

#[test]
fn state_cycle_free_queued_dequeued_free() {
    let mut q = Queue::<Capture, QueueInit>::new()
        .allocate(MemoryKind::UserPointer, Ok(1), vec![64])
        .ok()
        .unwrap();
    assert!(matches!(q.buffer_state(0), Some(BufferState::Free)));

    let buf = q.try_get_free_buffer().unwrap();
    let prepared = buf.queue_with_handles(&mut q, user_handles(1, 64)).ok().unwrap();
    assert!(prepared.complete(&mut q, Ok(())).is_ok());
    assert!(matches!(q.buffer_state(0), Some(BufferState::Queued(_))));

    let info = RetrievedSlotInfo {
        index: 0,
        sequence: 7,
        bytes_used: vec![33],
        timestamp: Timestamp { sec: 1, usec: 2 },
    };
    let dq = q.try_dequeue(Ok(info)).ok().unwrap();
    assert!(matches!(q.buffer_state(0), Some(BufferState::Dequeued)));
    assert_eq!(dq.index(), 0);
    assert_eq!(dq.sequence(), 7);
    assert_eq!(dq.bytes_used()[0], 33);
    assert_eq!(dq.timestamp(), Timestamp { sec: 1, usec: 2 });

    let handles = dq.recycle(&mut q);
    assert!(matches!(q.buffer_state(0), Some(BufferState::Free)));
    assert_eq!(handles.len(), 1);
    assert_eq!(*handles.get(0), MemoryHandle::UserPointer(vec![0u8; 64]));
}

#[test]
fn try_get_buffer_by_index() {
    let mut q = Queue::<Capture, QueueInit>::new()
        .allocate(MemoryKind::UserPointer, Ok(2), vec![64])
        .ok()
        .unwrap();
    assert!(matches!(
        q.try_get_buffer(5),
        Err(TryGetBufferError::InvalidIndex)
    ));
    let buf = q.try_get_buffer(1).ok().unwrap();
    assert_eq!(buf.index(), 1);
    // The same slot cannot be claimed twice while the buffer lives.
    assert!(matches!(
        q.try_get_buffer(1),
        Err(TryGetBufferError::AlreadyUsed)
    ));
    // Abandoning the buffer returns the slot to the free pool.
    buf.abandon(&mut q);
    assert!(q.try_get_buffer(1).is_ok());
}

#[test]
fn dequeue_device_failure_changes_nothing() {
    let mut q = Queue::<Capture, QueueInit>::new()
        .allocate(MemoryKind::UserPointer, Ok(1), vec![64])
        .ok()
        .unwrap();
    let r = q.try_dequeue(Err(DeviceError { code: 11 }));
    assert!(matches!(r, Err(DequeueError::Device(DeviceError { code: 11 }))));
    assert!(matches!(q.buffer_state(0), Some(BufferState::Free)));
}

#[test]
fn dequeue_of_unqueued_slot_is_inconsistent() {
    let mut q = Queue::<Capture, QueueInit>::new()
        .allocate(MemoryKind::UserPointer, Ok(1), vec![64])
        .ok()
        .unwrap();
    // The reported slot exists but is free, not queued.
    let info = RetrievedSlotInfo {
        index: 0,
        sequence: 0,
        bytes_used: vec![],
        timestamp: Timestamp { sec: 0, usec: 0 },
    };
    assert!(matches!(
        q.try_dequeue(Ok(info)),
        Err(DequeueError::InconsistentState(0))
    ));
    // A slot index out of range is inconsistent too.
    let info = RetrievedSlotInfo {
        index: 9,
        sequence: 0,
        bytes_used: vec![],
        timestamp: Timestamp { sec: 0, usec: 0 },
    };
    assert!(matches!(
        q.try_dequeue(Ok(info)),
        Err(DequeueError::InconsistentState(9))
    ));
}

#[test]
fn free_buffers_only_when_idle() {
    let mut q = Queue::<Capture, QueueInit>::new()
        .allocate(MemoryKind::UserPointer, Ok(2), vec![64])
        .ok()
        .unwrap();
    let buf = q.try_get_free_buffer().unwrap();
    // A live pre-submission buffer blocks deallocation.
    let mut q = match q.free_buffers() {
        Ok(_) => panic!("deallocation must fail while a buffer is claimed"),
        Err(q) => q,
    };
    buf.abandon(&mut q);
    // Idle again: deallocation moves the queue back to the initial
    // phase, from which it can be reallocated.
    let q = q.free_buffers().ok().unwrap();
    let q = q.allocate(MemoryKind::UserPointer, Ok(1), vec![16]).ok().unwrap();
    assert_eq!(q.num_buffers(), 1);
}

#[test]
fn zero_slot_allocation_has_no_free_buffer() {
    let mut q = Queue::<Capture, QueueInit>::new()
        .allocate(MemoryKind::UserPointer, Ok(0), vec![64])
        .ok()
        .unwrap();
    assert_eq!(q.num_buffers(), 0);
    assert_eq!(q.num_free_buffers(), 0);
    assert!(q.try_get_free_buffer().is_none());
}
