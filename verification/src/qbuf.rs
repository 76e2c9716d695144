//! Pre-submission buffers and the direction-specific submission
//! protocols.
//!
//! A [`QBuffer`] is obtained from an allocated queue and prepares one
//! slot for submission: CAPTURE buffers only need one memory handle
//! per plane, OUTPUT buffers additionally need the number of bytes
//! written in each plane. Preparing validates the plane counts and
//! builds the per-plane device descriptors; nothing reaches the device
//! on a mismatch, and the caller's handles are returned unchanged. The
//! resulting [`PreparedSubmit`] is handed to the device call layer,
//! whose outcome drives the final registry transition: success queues
//! the slot and disarms the safety fuse, failure fires the fuse and
//! returns the handles to the caller bundled with the device error.

use vstd::prelude::*;

use core::marker::PhantomData;

use crate::device::{DeviceError, PlaneBinding, PlaneDescriptor, PlaneMapping, Timestamp};
use crate::memory::{kind_is_mappable, kind_is_self_backed, HandleSet, MemoryKind};
use crate::queue::{BuffersAllocated, Capture, Direction, Output, Queue, QueueDirection};
use crate::registry::{cycle_step, slots_after_fire, BufferSlot, BufferState, BufferStateFuse};

verus! {

/// Error of a submission: a plane-count mismatch caught before the
/// device is involved, or a failure of the device call itself.
#[derive(Clone, Copy, Debug, PartialEq, Eq, Structural)]
pub enum QBufError {
    /// The number of provided entries does not equal the expected
    /// plane count: `NumPlanesMismatch(provided, expected)`.
    NumPlanesMismatch(usize, usize),
    /// The device rejected the submission.
    Device(DeviceError),
}

/// Error of a submission that also hands the caller's plane handles
/// back, so no application-owned resource is lost on a failure path.
#[derive(Debug)]
pub struct QueueError {
    pub error: QBufError,
    pub plane_handles: HandleSet,
}

#[allow(type_alias_bounds)]
pub type QueueResult<R> = Result<R, QueueError>;

/// A free buffer slot claimed from an allocated queue, being prepared
/// for submission. It carries an armed safety fuse: a buffer abandoned
/// before a completed submission returns its slot to the free pool.
pub struct QBuffer<D> {
    pub(crate) index: usize,
    pub(crate) num_planes: usize,
    pub(crate) memory_kind: MemoryKind,
    pub(crate) timestamp: Timestamp,
    pub(crate) fuse: BufferStateFuse,
    pub(crate) _d: PhantomData<D>,
}

impl<D: Direction> QBuffer<D> {
    /// The index of the slot this buffer prepares.
    pub closed spec fn index_spec(&self) -> usize {
        self.index
    }

    /// The number of handles and plane entries a submission must
    /// provide.
    pub closed spec fn num_planes_spec(&self) -> usize {
        self.num_planes
    }

    /// The memory kind of the owning queue.
    pub closed spec fn memory_kind_spec(&self) -> MemoryKind {
        self.memory_kind
    }

    /// The timestamp that will be attached on submission.
    pub closed spec fn timestamp_spec(&self) -> Timestamp {
        self.timestamp
    }

    /// The buffer's safety fuse.
    pub closed spec fn fuse_spec(&self) -> BufferStateFuse {
        self.fuse
    }

    /// The fuse is armed and bound to this buffer's slot.
    pub open spec fn wf(&self) -> bool {
        self.fuse_spec().armed_spec() && self.fuse_spec().index_spec() == self.index_spec()
    }

    /// Builds the pre-submission buffer for a freshly claimed slot,
    /// with a zero timestamp and a fresh armed fuse.
    pub(crate) fn new(index: usize, num_planes: usize, memory_kind: MemoryKind) -> (b: QBuffer<D>)
        ensures
            b.index_spec() == index,
            b.num_planes_spec() == num_planes,
            b.memory_kind_spec() == memory_kind,
            b.timestamp_spec().sec == 0 && b.timestamp_spec().usec == 0,
            b.wf(),
    {
        QBuffer {
            index,
            num_planes,
            memory_kind,
            timestamp: Timestamp::zero(),
            fuse: BufferStateFuse::new(index),
            _d: PhantomData,
        }
    }

    /// Returns the index of the slot this buffer prepares.
    pub fn index(&self) -> (r: usize)
        ensures
            r == self.index_spec(),
    {
        self.index
    }

    /// Returns the number of handles and plane entries expected for
    /// this buffer.
    pub fn num_expected_planes(&self) -> (r: usize)
        ensures
            r == self.num_planes_spec(),
    {
        self.num_planes
    }

    /// Sets the timestamp to attach on submission.
    pub fn set_timestamp(self, timestamp: Timestamp) -> (b: QBuffer<D>)
        ensures
            b.index_spec() == self.index_spec(),
            b.num_planes_spec() == self.num_planes_spec(),
            b.memory_kind_spec() == self.memory_kind_spec(),
            b.timestamp_spec() == timestamp,
            b.fuse_spec() == self.fuse_spec(),
            b.wf() == self.wf(),
    {
        QBuffer {
            index: self.index,
            num_planes: self.num_planes,
            memory_kind: self.memory_kind,
            timestamp,
            fuse: self.fuse,
            _d: PhantomData,
        }
    }

    /// Abandons the buffer without submitting it, firing the fuse:
    /// its slot returns to the free pool, whatever state it was in.
    pub fn abandon(self, queue: &mut Queue<D, BuffersAllocated>)
        requires
            self.wf(),
        ensures
            final(queue).memory_kind_spec() == old(queue).memory_kind_spec(),
            self.index_spec() < old(queue).slots().len() ==> final(queue).slots() == old(
                queue,
            ).slots().update(
                self.index_spec() as int,
                (BufferSlot {
                    features: old(queue).slots()[self.index_spec() as int].features,
                    state: BufferState::Free,
                    claimed: false,
                }),
            ),
            self.index_spec() >= old(queue).slots().len() ==> final(queue).slots() == old(
                queue,
            ).slots(),
    {
        let QBuffer { fuse, .. } = self;
        let mut fuse = fuse;
        queue.fire_fuse(&mut fuse);
    }
}

impl QBuffer<Output> {
    /// Direct mapping accessor for a plane of an OUTPUT buffer, so the
    /// caller can fill device-provided storage in place before
    /// submission. Only mappable memory kinds and planes of the
    /// queue's format yield a region.
    pub fn get_plane_mapping(&self, queue: &Queue<Output, BuffersAllocated>, plane: usize) -> (r:
        Option<PlaneMapping>)
        ensures
            r is Some <==> (kind_is_mappable(self.memory_kind_spec()) && self.index_spec() < queue.slots().len()
                && plane < queue.slots()[self.index_spec() as int].features.plane_sizes@.len()),
            r matches Some(m) ==> m.index == self.index_spec() && m.plane == plane && m.length
                == queue.slots()[self.index_spec() as int].features.plane_sizes@[plane as int],
    {
        if !self.memory_kind.is_mappable() {
            return None;
        }
        if self.index >= queue.num_buffers() {
            return None;
        }
        match queue.plane_size(self.index, plane) {
            Some(length) => Some(PlaneMapping { index: self.index, plane, length }),
            None => None,
        }
    }
}

/// One buffer submission, validated and fully described, waiting for
/// the device call layer to issue the submit call with its
/// descriptors. The outcome of that call is then applied with
/// [`PreparedSubmit::complete`].
pub struct PreparedSubmit {
    pub(crate) direction: QueueDirection,
    pub(crate) index: usize,
    pub(crate) planes: Vec<PlaneDescriptor>,
    pub(crate) timestamp: Timestamp,
    pub(crate) handles: HandleSet,
    pub(crate) fuse: BufferStateFuse,
}

impl PreparedSubmit {
    /// The direction of the owning queue.
    pub closed spec fn direction_spec(&self) -> QueueDirection {
        self.direction
    }

    /// The slot this submission fills.
    pub closed spec fn index_spec(&self) -> usize {
        self.index
    }

    /// The per-plane descriptors for the device call.
    pub closed spec fn planes_spec(&self) -> Seq<PlaneDescriptor> {
        self.planes@
    }

    /// The timestamp attached to the submission.
    pub closed spec fn timestamp_spec(&self) -> Timestamp {
        self.timestamp
    }

    /// The handles that pass to the registry on success.
    pub closed spec fn handles_spec(&self) -> HandleSet {
        self.handles
    }

    /// The safety fuse carried over from the pre-submission buffer.
    pub closed spec fn fuse_spec(&self) -> BufferStateFuse {
        self.fuse
    }

    /// The fuse is armed and bound to this submission's slot.
    pub open spec fn wf(&self) -> bool {
        self.fuse_spec().armed_spec() && self.fuse_spec().index_spec() == self.index_spec()
    }

    /// Returns the direction of the owning queue.
    pub fn direction(&self) -> (d: QueueDirection)
        ensures
            d == self.direction_spec(),
    {
        self.direction
    }

    /// Returns the index of the slot this submission fills.
    pub fn buffer_index(&self) -> (r: usize)
        ensures
            r == self.index_spec(),
    {
        self.index
    }

    /// The per-plane descriptors to hand to the device's submit call.
    pub fn planes(&self) -> (p: &Vec<PlaneDescriptor>)
        ensures
            p@ == self.planes_spec(),
    {
        &self.planes
    }

    /// Returns the timestamp attached to the submission.
    pub fn timestamp(&self) -> (t: Timestamp)
        ensures
            t == self.timestamp_spec(),
    {
        self.timestamp
    }

    /// Applies the outcome of the device's submit call. On success the
    /// fuse is disarmed and the slot moves from `Free` to `Queued`,
    /// taking ownership of the handles. On failure the fuse fires (the
    /// slot returns to the free pool) and the handles come back to the
    /// caller bundled with the device error, so nothing is lost.
    pub fn complete<D: Direction>(
        self,
        queue: &mut Queue<D, BuffersAllocated>,
        outcome: Result<(), DeviceError>,
    ) -> (r: QueueResult<()>)
        requires
            self.wf(),
            self.direction_spec() == D::direction_spec(),
            self.index_spec() < old(queue).slots().len(),
            old(queue).slots()[self.index_spec() as int].state is Free,
            old(queue).slots()[self.index_spec() as int].claimed,
        ensures
            final(queue).memory_kind_spec() == old(queue).memory_kind_spec(),
            r is Ok <==> outcome is Ok,
            outcome is Ok ==> final(queue).slots() == old(queue).slots().update(
                self.index_spec() as int,
                (BufferSlot {
                    features: old(queue).slots()[self.index_spec() as int].features,
                    state: BufferState::Queued(self.handles_spec()),
                    claimed: false,
                }),
            ),
            outcome is Ok ==> cycle_step(
                old(queue).slots()[self.index_spec() as int].state,
                final(queue).slots()[self.index_spec() as int].state,
            ),
            outcome matches Err(e) ==> (r matches Err(q) && q.error == QBufError::Device(e)
                && q.plane_handles == self.handles_spec() && final(queue).slots() == old(queue).slots().update(
                self.index_spec() as int,
                (BufferSlot {
                    features: old(queue).slots()[self.index_spec() as int].features,
                    state: BufferState::Free,
                    claimed: false,
                }),
            )),
    {
        match outcome {
            Ok(()) => {
                let PreparedSubmit { index, handles, fuse, .. } = self;
                let mut fuse = fuse;
                fuse.disarm();
                queue.registry_update(index, BufferState::Queued(handles), false);
                Ok(())
            },
            Err(e) => {
                let PreparedSubmit { handles, fuse, .. } = self;
                let mut fuse = fuse;
                queue.fire_fuse(&mut fuse);
                Err(QueueError { error: QBufError::Device(e), plane_handles: handles })
            },
        }
    }
}

/// Trait for queueable CAPTURE buffers. These buffers only require
/// handles to be bound; the device fills them and reports the byte
/// usage on retrieval.
pub trait CaptureQueueable {
    /// Binds `handles` and prepares the submission, consuming the
    /// buffer. The number of handles must match the buffer's expected
    /// number of planes; on mismatch the handles are returned
    /// unchanged inside the error, the buffer's fuse fires, and its
    /// slot returns to the owning queue's free pool.
    fn queue_with_handles(
        self,
        queue: &mut Queue<Capture, BuffersAllocated>,
        handles: HandleSet,
    ) -> QueueResult<PreparedSubmit>;
}

/// Trait for queueable OUTPUT buffers. The number of bytes used must
/// be specified for each plane on top of the handles.
pub trait OutputQueueable {
    /// Binds `handles` and the per-plane `bytes_used` and prepares the
    /// submission, consuming the buffer. Both lists must match the
    /// buffer's expected number of planes; on mismatch the handles are
    /// returned unchanged inside the error, the buffer's fuse fires,
    /// and its slot returns to the owning queue's free pool.
    fn queue_with_handles(
        self,
        queue: &mut Queue<Output, BuffersAllocated>,
        handles: HandleSet,
        bytes_used: &[usize],
    ) -> QueueResult<PreparedSubmit>;
}

/// Trait for all objects able to provide buffers queueable to the
/// CAPTURE queue.
pub trait CaptureQueueableProvider {
    type Queueable: CaptureQueueable;
}

/// Trait for all objects able to provide buffers queueable to the
/// OUTPUT queue.
pub trait OutputQueueableProvider {
    type Queueable: OutputQueueable;
}

impl CaptureQueueableProvider for Queue<Capture, BuffersAllocated> {
    type Queueable = QBuffer<Capture>;
}

impl OutputQueueableProvider for Queue<Output, BuffersAllocated> {
    type Queueable = QBuffer<Output>;
}

/// Any CAPTURE QBuffer implements CaptureQueueable.
impl CaptureQueueable for QBuffer<Capture> {
    fn queue_with_handles(
        self,
        queue: &mut Queue<Capture, BuffersAllocated>,
        handles: HandleSet,
    ) -> (r: QueueResult<PreparedSubmit>)
        ensures
            final(queue).memory_kind_spec() == old(queue).memory_kind_spec(),
            r is Ok <==> handles@.len() == self.num_planes_spec(),
            r is Ok ==> final(queue).slots() == old(queue).slots(),
            r is Err ==> final(queue).slots() == slots_after_fire(
                old(queue).slots(),
                self.fuse_spec(),
            ),
            r matches Err(q) ==> q.plane_handles == handles && q.error
                == QBufError::NumPlanesMismatch(
                handles@.len() as usize,
                self.num_planes_spec(),
            ),
            r matches Ok(p) ==> ({
                &&& p.direction_spec() == QueueDirection::Capture
                &&& p.index_spec() == self.index_spec()
                &&& p.timestamp_spec() == self.timestamp_spec()
                &&& p.handles_spec() == handles
                &&& p.fuse_spec() == self.fuse_spec()
                &&& p.planes_spec().len() == self.num_planes_spec()
                &&& (forall|i: int|
                    0 <= i < p.planes_spec().len() ==> (#[trigger] p.planes_spec()[i]).bytes_used
                        == 0 && p.planes_spec()[i].binding == handles@[i].binding_spec())
                &&& (self.wf() ==> p.wf())
            }),
    {
        if handles.len() != self.num_planes {
            let expected = self.num_planes;
            let QBuffer { fuse, .. } = self;
            let mut fuse = fuse;
            queue.fire_fuse(&mut fuse);
            return Err(
                QueueError {
                    error: QBufError::NumPlanesMismatch(handles.len(), expected),
                    plane_handles: handles,
                },
            );
        }
        let mut planes: Vec<PlaneDescriptor> = Vec::new();
        let mut i: usize = 0;
        while i < self.num_planes
            invariant
                i <= self.num_planes_spec(),
                handles@.len() == self.num_planes_spec(),
                planes@.len() == i,
                forall|j: int|
                    0 <= j < i ==> (#[trigger] planes@[j]).bytes_used == 0 && planes@[j].binding
                        == handles@[j].binding_spec(),
            decreases self.num_planes_spec() - i,
        {
            planes.push(PlaneDescriptor { bytes_used: 0, binding: handles.get(i).binding() });
            i += 1;
        }
        let QBuffer { index, timestamp, fuse, .. } = self;
        Ok(
            PreparedSubmit {
                direction: QueueDirection::Capture,
                index,
                planes,
                timestamp,
                handles,
                fuse,
            },
        )
    }
}

/// Any OUTPUT QBuffer implements OutputQueueable.
impl OutputQueueable for QBuffer<Output> {
    fn queue_with_handles(
        self,
        queue: &mut Queue<Output, BuffersAllocated>,
        handles: HandleSet,
        bytes_used: &[usize],
    ) -> (r: QueueResult<PreparedSubmit>)
        ensures
            final(queue).memory_kind_spec() == old(queue).memory_kind_spec(),
            r is Ok <==> (handles@.len() == self.num_planes_spec() && bytes_used@.len()
                == self.num_planes_spec()),
            r is Ok ==> final(queue).slots() == old(queue).slots(),
            r is Err ==> final(queue).slots() == slots_after_fire(
                old(queue).slots(),
                self.fuse_spec(),
            ),
            r matches Err(q) ==> q.plane_handles == handles,
            handles@.len() != self.num_planes_spec() ==> (r matches Err(q) && q.error
                == QBufError::NumPlanesMismatch(handles@.len() as usize, self.num_planes_spec())),
            (handles@.len() == self.num_planes_spec() && bytes_used@.len()
                != self.num_planes_spec()) ==> (r matches Err(q) && q.error
                == QBufError::NumPlanesMismatch(
                bytes_used@.len() as usize,
                self.num_planes_spec(),
            )),
            r matches Ok(p) ==> ({
                &&& p.direction_spec() == QueueDirection::Output
                &&& p.index_spec() == self.index_spec()
                &&& p.timestamp_spec() == self.timestamp_spec()
                &&& p.handles_spec() == handles
                &&& p.fuse_spec() == self.fuse_spec()
                &&& p.planes_spec().len() == self.num_planes_spec()
                &&& (forall|i: int|
                    0 <= i < p.planes_spec().len() ==> (#[trigger] p.planes_spec()[i]).bytes_used
                        == bytes_used@[i] && p.planes_spec()[i].binding
                        == handles@[i].binding_spec())
                &&& (self.wf() ==> p.wf())
            }),
    {
        if handles.len() != self.num_planes {
            let expected = self.num_planes;
            let QBuffer { fuse, .. } = self;
            let mut fuse = fuse;
            queue.fire_fuse(&mut fuse);
            return Err(
                QueueError {
                    error: QBufError::NumPlanesMismatch(handles.len(), expected),
                    plane_handles: handles,
                },
            );
        }
        if bytes_used.len() != self.num_planes {
            let expected = self.num_planes;
            let QBuffer { fuse, .. } = self;
            let mut fuse = fuse;
            queue.fire_fuse(&mut fuse);
            return Err(
                QueueError {
                    error: QBufError::NumPlanesMismatch(bytes_used.len(), expected),
                    plane_handles: handles,
                },
            );
        }
        let mut planes: Vec<PlaneDescriptor> = Vec::new();
        let mut i: usize = 0;
        while i < self.num_planes
            invariant
                i <= self.num_planes_spec(),
                handles@.len() == self.num_planes_spec(),
                bytes_used@.len() == self.num_planes_spec(),
                planes@.len() == i,
                forall|j: int|
                    0 <= j < i ==> (#[trigger] planes@[j]).bytes_used == bytes_used@[j]
                        && planes@[j].binding == handles@[j].binding_spec(),
            decreases self.num_planes_spec() - i,
        {
            planes.push(
                PlaneDescriptor { bytes_used: bytes_used[i], binding: handles.get(i).binding() },
            );
            i += 1;
        }
        let QBuffer { index, timestamp, fuse, .. } = self;
        Ok(
            PreparedSubmit {
                direction: QueueDirection::Output,
                index,
                planes,
                timestamp,
                handles,
                fuse,
            },
        )
    }
}

/// Shortcut to quickly prepare self-backed CAPTURE buffers without
/// specifying empty handles: the device provides the storage, so the
/// submission carries an empty handle set and zero byte usage.
impl QBuffer<Capture> {
    pub fn queue(self) -> (p: PreparedSubmit)
        requires
            kind_is_self_backed(self.memory_kind_spec()),
        ensures
            p.direction_spec() == QueueDirection::Capture,
            p.index_spec() == self.index_spec(),
            p.timestamp_spec() == self.timestamp_spec(),
            p.fuse_spec() == self.fuse_spec(),
            p.handles_spec().kind_spec() == self.memory_kind_spec(),
            p.handles_spec()@.len() == 0,
            p.planes_spec().len() == self.num_planes_spec(),
            forall|i: int|
                0 <= i < p.planes_spec().len() ==> (#[trigger] p.planes_spec()[i]).bytes_used == 0
                    && p.planes_spec()[i].binding == PlaneBinding::Device,
            self.wf() ==> p.wf(),
    {
        let mut planes: Vec<PlaneDescriptor> = Vec::new();
        let mut i: usize = 0;
        while i < self.num_planes
            invariant
                i <= self.num_planes_spec(),
                planes@.len() == i,
                forall|j: int|
                    0 <= j < i ==> (#[trigger] planes@[j]).bytes_used == 0 && planes@[j].binding
                        == PlaneBinding::Device,
            decreases self.num_planes_spec() - i,
        {
            planes.push(PlaneDescriptor { bytes_used: 0, binding: PlaneBinding::Device });
            i += 1;
        }
        let handles = HandleSet::empty(self.memory_kind);
        let QBuffer { index, timestamp, fuse, .. } = self;
        PreparedSubmit {
            direction: QueueDirection::Capture,
            index,
            planes,
            timestamp,
            handles,
            fuse,
        }
    }
}

/// Shortcut to quickly prepare self-backed OUTPUT buffers without
/// specifying empty handles. The per-plane byte usage is still
/// validated; since no handles are received, none need to be returned
/// and the mismatch error stands alone.
impl QBuffer<Output> {
    pub fn queue(self, queue: &mut Queue<Output, BuffersAllocated>, bytes_used: &[usize]) -> (r:
        Result<PreparedSubmit, QBufError>)
        requires
            kind_is_self_backed(self.memory_kind_spec()),
        ensures
            final(queue).memory_kind_spec() == old(queue).memory_kind_spec(),
            r is Ok <==> bytes_used@.len() == self.num_planes_spec(),
            r is Ok ==> final(queue).slots() == old(queue).slots(),
            r is Err ==> final(queue).slots() == slots_after_fire(
                old(queue).slots(),
                self.fuse_spec(),
            ),
            r matches Err(e) ==> e == QBufError::NumPlanesMismatch(
                bytes_used@.len() as usize,
                self.num_planes_spec(),
            ),
            r matches Ok(p) ==> ({
                &&& p.direction_spec() == QueueDirection::Output
                &&& p.index_spec() == self.index_spec()
                &&& p.timestamp_spec() == self.timestamp_spec()
                &&& p.fuse_spec() == self.fuse_spec()
                &&& p.handles_spec().kind_spec() == self.memory_kind_spec()
                &&& p.handles_spec()@.len() == 0
                &&& p.planes_spec().len() == self.num_planes_spec()
                &&& (forall|i: int|
                    0 <= i < p.planes_spec().len() ==> (#[trigger] p.planes_spec()[i]).bytes_used
                        == bytes_used@[i] && p.planes_spec()[i].binding == PlaneBinding::Device)
                &&& (self.wf() ==> p.wf())
            }),
    {
        if bytes_used.len() != self.num_planes {
            let expected = self.num_planes;
            let QBuffer { fuse, .. } = self;
            let mut fuse = fuse;
            queue.fire_fuse(&mut fuse);
            return Err(QBufError::NumPlanesMismatch(bytes_used.len(), expected));
        }
        let mut planes: Vec<PlaneDescriptor> = Vec::new();
        let mut i: usize = 0;
        while i < self.num_planes
            invariant
                i <= self.num_planes_spec(),
                bytes_used@.len() == self.num_planes_spec(),
                planes@.len() == i,
                forall|j: int|
                    0 <= j < i ==> (#[trigger] planes@[j]).bytes_used == bytes_used@[j]
                        && planes@[j].binding == PlaneBinding::Device,
            decreases self.num_planes_spec() - i,
        {
            planes.push(PlaneDescriptor { bytes_used: bytes_used[i], binding: PlaneBinding::Device });
            i += 1;
        }
        let handles = HandleSet::empty(self.memory_kind);
        let QBuffer { index, timestamp, fuse, .. } = self;
        Ok(
            PreparedSubmit {
                direction: QueueDirection::Output,
                index,
                planes,
                timestamp,
                handles,
                fuse,
            },
        )
    }
}

} // verus!
