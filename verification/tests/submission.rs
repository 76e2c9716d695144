//! Submission protocol tests: plane-count enforcement, handle
//! ownership preservation on failure, the direction asymmetry of the
//! byte-usage list, and the self-backed shortcuts.

use v4l2::device::{DeviceError, PlaneBinding, Timestamp};
use v4l2::memory::{HandleSet, MemoryHandle, MemoryKind};
use v4l2::qbuf::{CaptureQueueable, OutputQueueable, QBufError};
use v4l2::queue::{Capture, Output, Queue, QueueDirection, QueueInit};
use v4l2::registry::BufferState;

fn user_set(contents: Vec<Vec<u8>>) -> HandleSet {
    let v: Vec<MemoryHandle> = contents.into_iter().map(MemoryHandle::UserPointer).collect();
    HandleSet::from_handles(MemoryKind::UserPointer, v).ok().unwrap()
}

#[test]
fn capture_mismatch_fails_before_any_device_call() {
    let mut q = Queue::<Capture, QueueInit>::new()
        .allocate(MemoryKind::UserPointer, Ok(1), vec![64])
        .ok()
        .unwrap();
    let buf = q.try_get_free_buffer().unwrap();
    // Two handles on a 1-plane slot: rejected without producing a
    // prepared submission, so nothing can reach the device.
    let err = match buf.queue_with_handles(&mut q, user_set(vec![vec![1], vec![2]])) {
        Ok(_) => panic!("a plane-count mismatch must fail"),
        Err(e) => e,
    };
    assert_eq!(err.error, QBufError::NumPlanesMismatch(2, 1));
    // The mismatch fired the buffer's fuse: the slot is free and
    // claimable again.
    assert!(matches!(q.buffer_state(0), Some(BufferState::Free)));
    assert_eq!(q.num_free_buffers(), 1);
}

#[test]
fn scenario_output_mismatch_returns_handles_unchanged() {
    let mut q = Queue::<Output, QueueInit>::new()
        .allocate(MemoryKind::UserPointer, Ok(1), vec![64])
        .ok()
        .unwrap();
    let buf = q.try_get_free_buffer().unwrap();
    assert_eq!(buf.num_expected_planes(), 1);
    // handles.len() = 2 against an expected plane count of 1.
    let handles = user_set(vec![vec![10, 11], vec![12, 13, 14]]);
    let err = match buf.queue_with_handles(&mut q, handles, &[2, 3]) {
        Ok(_) => panic!("a plane-count mismatch must fail"),
        Err(e) => e,
    };
    assert_eq!(err.error, QBufError::NumPlanesMismatch(2, 1));
    // The original two handles come back unchanged.
    assert_eq!(err.plane_handles.len(), 2);
    assert_eq!(*err.plane_handles.get(0), MemoryHandle::UserPointer(vec![10, 11]));
    assert_eq!(*err.plane_handles.get(1), MemoryHandle::UserPointer(vec![12, 13, 14]));
}

#[test]
fn output_short_byte_usage_list_fails_before_any_device_call() {
    let mut q = Queue::<Output, QueueInit>::new()
        .allocate(MemoryKind::UserPointer, Ok(1), vec![64])
        .ok()
        .unwrap();
    let buf = q.try_get_free_buffer().unwrap();
    // The handle count matches, the byte-usage list does not.
    let err = match buf.queue_with_handles(&mut q, user_set(vec![vec![9, 9]]), &[]) {
        Ok(_) => panic!("a byte-usage mismatch must fail"),
        Err(e) => e,
    };
    assert_eq!(err.error, QBufError::NumPlanesMismatch(0, 1));
    assert_eq!(err.plane_handles.len(), 1);
    assert_eq!(*err.plane_handles.get(0), MemoryHandle::UserPointer(vec![9, 9]));
}

#[test]
fn output_submission_carries_byte_usage_into_descriptors() {
    let mut q = Queue::<Output, QueueInit>::new()
        .allocate(MemoryKind::UserPointer, Ok(1), vec![8, 16])
        .ok()
        .unwrap();
    let buf = q.try_get_free_buffer().unwrap();
    assert_eq!(buf.num_expected_planes(), 2);
    let prepared = buf
        .queue_with_handles(&mut q, user_set(vec![vec![0u8; 8], vec![0u8; 16]]), &[5, 12])
        .ok()
        .unwrap();
    assert_eq!(prepared.direction(), QueueDirection::Output);
    let planes = prepared.planes();
    assert_eq!(planes.len(), 2);
    assert_eq!(planes[0].bytes_used, 5);
    assert_eq!(planes[0].binding, PlaneBinding::User { length: 8 });
    assert_eq!(planes[1].bytes_used, 12);
    assert_eq!(planes[1].binding, PlaneBinding::User { length: 16 });
    assert!(prepared.complete(&mut q, Ok(())).is_ok());
    assert!(matches!(q.buffer_state(0), Some(BufferState::Queued(_))));
}

#[test]
fn device_rejection_bundles_error_and_handles() {
    let mut q = Queue::<Capture, QueueInit>::new()
        .allocate(MemoryKind::UserPointer, Ok(1), vec![64])
        .ok()
        .unwrap();
    let buf = q.try_get_free_buffer().unwrap();
    let prepared = buf.queue_with_handles(&mut q, user_set(vec![vec![42, 43]])).ok().unwrap();
    let err = match prepared.complete(&mut q, Err(DeviceError { code: 16 })) {
        Ok(_) => panic!("a rejected submit must fail"),
        Err(e) => e,
    };
    assert_eq!(err.error, QBufError::Device(DeviceError { code: 16 }));
    assert_eq!(err.plane_handles.len(), 1);
    assert_eq!(*err.plane_handles.get(0), MemoryHandle::UserPointer(vec![42, 43]));
    // The fuse fired: the slot is free and claimable again.
    assert!(matches!(q.buffer_state(0), Some(BufferState::Free)));
    assert_eq!(q.num_free_buffers(), 1);
}

#[test]
fn abandoned_buffer_frees_its_slot() {
    let mut q = Queue::<Capture, QueueInit>::new()
        .allocate(MemoryKind::UserPointer, Ok(1), vec![64])
        .ok()
        .unwrap();
    let buf = q.try_get_free_buffer().unwrap();
    assert_eq!(q.num_free_buffers(), 0);
    buf.abandon(&mut q);
    assert!(matches!(q.buffer_state(0), Some(BufferState::Free)));
    assert_eq!(q.num_free_buffers(), 1);
}

#[test]
fn scenario_self_backed_capture_shortcut() {
    // Self-backed capture shortcut on a 1-plane slot: no explicit
    // handles, one zero-byte-usage descriptor, and the slot ends
    // queued with the default (empty) handle set.
    let mut q = Queue::<Capture, QueueInit>::new()
        .allocate(MemoryKind::DeviceMapped, Ok(1), vec![4096])
        .ok()
        .unwrap();
    let buf = q.try_get_free_buffer().unwrap();
    let prepared = buf.queue();
    assert_eq!(prepared.direction(), QueueDirection::Capture);
    assert_eq!(prepared.planes().len(), 1);
    assert_eq!(prepared.planes()[0].bytes_used, 0);
    assert_eq!(prepared.planes()[0].binding, PlaneBinding::Device);
    assert!(prepared.complete(&mut q, Ok(())).is_ok());
    match q.buffer_state(0) {
        Some(BufferState::Queued(h)) => {
            assert_eq!(h.len(), 0);
            assert_eq!(h.kind(), MemoryKind::DeviceMapped);
        },
        _ => panic!("the slot must be queued"),
    }
}

#[test]
fn self_backed_output_shortcut_validates_byte_usage() {
    let mut q = Queue::<Output, QueueInit>::new()
        .allocate(MemoryKind::DeviceMapped, Ok(1), vec![4096])
        .ok()
        .unwrap();
    let buf = q.try_get_free_buffer().unwrap();
    // The byte-usage list is still validated on the shortcut path.
    let buf = match buf.queue(&mut q, &[1, 2]) {
        Ok(_) => panic!("a byte-usage mismatch must fail"),
        Err(e) => {
            assert_eq!(e, QBufError::NumPlanesMismatch(2, 1));
            q.try_get_free_buffer()
        },
    };
    // The mismatch fired the fuse, so the slot was claimable again.
    let buf = buf.unwrap();
    let prepared = buf.queue(&mut q, &[100]).ok().unwrap();
    assert_eq!(prepared.direction(), QueueDirection::Output);
    assert_eq!(prepared.planes()[0].bytes_used, 100);
    assert_eq!(prepared.planes()[0].binding, PlaneBinding::Device);
    assert!(prepared.complete(&mut q, Ok(())).is_ok());
}

#[test]
fn set_timestamp_reaches_the_prepared_submission() {
    let mut q = Queue::<Capture, QueueInit>::new()
        .allocate(MemoryKind::UserPointer, Ok(1), vec![64])
        .ok()
        .unwrap();
    let buf = q.try_get_free_buffer().unwrap();
    let ts = Timestamp { sec: 33, usec: 125000 };
    let buf = buf.set_timestamp(ts);
    let prepared = buf.queue_with_handles(&mut q, user_set(vec![vec![0u8; 64]])).ok().unwrap();
    assert_eq!(prepared.timestamp(), ts);
    assert_eq!(prepared.buffer_index(), 0);
}
