//! Value types exchanged with the device call layer.
//!
//! The ioctl marshalling layer is an external collaborator: it performs
//! the actual submit/retrieve/allocate calls against the device. This
//! module defines the plain values that cross that boundary: per-plane
//! descriptors handed to a submit call, the record a retrieve call
//! reports back, timestamps, and the device-side error.

use vstd::prelude::*;

verus! {

/// A timestamp attached to a submitted buffer, as seconds and
/// microseconds.
#[derive(Clone, Copy, Debug, PartialEq, Eq, Structural)]
pub struct Timestamp {
    pub sec: i64,
    pub usec: i64,
}

impl Timestamp {
    /// The zero timestamp, used when the caller sets none.
    pub fn zero() -> (t: Timestamp)
        ensures
            t.sec == 0 && t.usec == 0,
    {
        Timestamp { sec: 0, usec: 0 }
    }
}

/// An error reported by a device call, as an errno-like code.
#[derive(Clone, Copy, Debug, PartialEq, Eq, Structural)]
pub struct DeviceError {
    pub code: i32,
}

/// What one plane of a submitted buffer is backed by, as the device
/// descriptor requires it: nothing for device-owned storage, a length
/// for application-owned memory, or a shared buffer descriptor.
#[derive(Clone, Copy, Debug, PartialEq, Eq, Structural)]
pub enum PlaneBinding {
    /// The device itself owns the storage for this plane.
    Device,
    /// Application-owned memory of the given length.
    User { length: usize },
    /// A cross-process shared buffer descriptor.
    Shared { descriptor: u64 },
}

/// One per-plane entry of a submit call: how many bytes of the plane
/// hold useful data, and what backs the plane.
#[derive(Clone, Copy, Debug, PartialEq, Eq, Structural)]
pub struct PlaneDescriptor {
    pub bytes_used: usize,
    pub binding: PlaneBinding,
}

/// Identifies one mappable plane region of a buffer slot: the slot
/// index, the plane within it, and the region's length in bytes. The
/// device call layer turns this into an actual memory view; handing
/// one out is only legal for mappable memory kinds.
#[derive(Clone, Copy, Debug, PartialEq, Eq, Structural)]
pub struct PlaneMapping {
    pub index: usize,
    pub plane: usize,
    pub length: usize,
}

/// What a successful retrieve call reports: which slot completed, the
/// frame sequence number, how many bytes the device used in each plane,
/// and the timestamp the device attached.
#[derive(Debug, PartialEq, Eq)]
pub struct RetrievedSlotInfo {
    pub index: usize,
    pub sequence: u32,
    pub bytes_used: Vec<usize>,
    pub timestamp: Timestamp,
}

} // verus!
