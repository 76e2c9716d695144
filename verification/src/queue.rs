//! The queue type-state machine.
//!
//! A queue's type encodes its direction (OUTPUT or CAPTURE) and its
//! allocation phase (`QueueInit` or `BuffersAllocated`), so operations
//! such as claiming a buffer are only expressible once allocation has
//! occurred. The fallible device calls themselves (allocate, submit,
//! retrieve) are performed by the external call layer; the queue takes
//! each call's outcome and performs the corresponding verified registry
//! transition.

use vstd::prelude::*;

use core::marker::PhantomData;

use crate::device::{DeviceError, RetrievedSlotInfo};
use crate::dqbuf::DQBuffer;
use crate::memory::MemoryKind;
use crate::qbuf::QBuffer;
use crate::registry::{cycle_step, BufferSlot, BufferState, BufferStateFuse, Registry};

verus! {

/// The two data directions of a streaming device: OUTPUT carries data
/// from the application to the device, CAPTURE from the device to the
/// application.
#[derive(Clone, Copy, Debug, PartialEq, Eq, Structural)]
pub enum QueueDirection {
    Output,
    Capture,
}

/// Type-level direction marker, so that direction-specific operations
/// are only expressible on queues and buffers of that direction.
pub trait Direction {
    /// The direction value this marker stands for.
    spec fn direction_spec() -> QueueDirection;

    /// Returns the direction value this marker stands for.
    fn direction() -> (d: QueueDirection)
        ensures
            d == Self::direction_spec(),
    ;
}

/// Marker for the OUTPUT direction (application to device).
pub struct Output;

/// Marker for the CAPTURE direction (device to application).
pub struct Capture;

impl Direction for Output {
    open spec fn direction_spec() -> QueueDirection {
        QueueDirection::Output
    }

    fn direction() -> (d: QueueDirection) {
        QueueDirection::Output
    }
}

impl Direction for Capture {
    open spec fn direction_spec() -> QueueDirection {
        QueueDirection::Capture
    }

    fn direction() -> (d: QueueDirection) {
        QueueDirection::Capture
    }
}

/// Phase of a queue before any buffers are allocated.
pub struct QueueInit;

/// Phase of a queue whose buffers are allocated: it owns the registry
/// and remembers the memory kind the buffers were allocated with.
pub struct BuffersAllocated {
    pub(crate) registry: Registry,
    pub(crate) memory_kind: MemoryKind,
}

/// A buffer queue of direction `D` in allocation phase `S`.
pub struct Queue<D, S> {
    pub(crate) state: S,
    pub(crate) _d: PhantomData<D>,
}

/// Error of a claim by index.
#[derive(Clone, Copy, Debug, PartialEq, Eq, Structural)]
pub enum TryGetBufferError {
    /// The index does not denote an allocated slot.
    InvalidIndex,
    /// The slot is queued, dequeued, or already claimed.
    AlreadyUsed,
}

/// Error of a retrieve transition.
#[derive(Clone, Copy, Debug, PartialEq, Eq, Structural)]
pub enum DequeueError {
    /// The device call itself failed.
    Device(DeviceError),
    /// The device reported a slot that is not currently queued: an
    /// internal invariant violation, surfaced loudly instead of
    /// corrupting the registry.
    InconsistentState(usize),
}

impl<D: Direction> Queue<D, QueueInit> {
    /// A fresh queue with no buffers allocated.
    pub fn new() -> (q: Queue<D, QueueInit>) {
        Queue { state: QueueInit, _d: PhantomData }
    }

    /// Applies the outcome of the device's allocate call. On success
    /// the queue moves to the `BuffersAllocated` phase with `count`
    /// fresh free slots, each with the given per-plane sizes from the
    /// negotiated format. On failure the queue stays in `QueueInit`
    /// phase and is handed back with the device error.
    pub fn allocate(
        self,
        memory_kind: MemoryKind,
        outcome: Result<usize, DeviceError>,
        plane_sizes: Vec<usize>,
    ) -> (r: Result<Queue<D, BuffersAllocated>, (Queue<D, QueueInit>, DeviceError)>)
        requires
            plane_sizes@.len() >= 1,
        ensures
            outcome matches Ok(count) ==> (r matches Ok(q) && q.memory_kind_spec() == memory_kind
                && q.slots().len() == count && (forall|i: int|
                0 <= i < count ==> (#[trigger] q.slots()[i]).state is Free && !q.slots()[i].claimed
                    && q.slots()[i].features.index == i && q.slots()[i].features.plane_sizes@
                    == plane_sizes@)),
            outcome matches Err(e) ==> (r matches Err(p) && p.0 == self && p.1 == e),
    {
        match outcome {
            Ok(count) => {
                let registry = Registry::new_allocated(count, &plane_sizes);
                Ok(Queue { state: BuffersAllocated { registry, memory_kind }, _d: PhantomData })
            },
            Err(e) => Err((self, e)),
        }
    }
}

impl<D: Direction> Queue<D, BuffersAllocated> {
    /// The registry's records, one per allocated slot.
    pub closed spec fn slots(&self) -> Seq<BufferSlot> {
        self.state.registry@
    }

    /// The record of one slot.
    pub open spec fn slot(&self, i: int) -> BufferSlot {
        self.slots()[i]
    }

    /// The memory kind the queue's buffers were allocated with.
    pub closed spec fn memory_kind_spec(&self) -> MemoryKind {
        self.state.memory_kind
    }

    /// No slot is queued, dequeued, or claimed: the precondition for
    /// deallocating or reconfiguring the queue.
    pub open spec fn idle(&self) -> bool {
        forall|i: int|
            0 <= i < self.slots().len() ==> (#[trigger] self.slots()[i]).state is Free
                && !self.slots()[i].claimed
    }

    /// How many buffer slots are allocated.
    pub fn num_buffers(&self) -> (n: usize)
        ensures
            n == self.slots().len(),
    {
        self.state.registry.len()
    }

    /// Returns the memory kind the queue's buffers were allocated
    /// with.
    pub fn memory_kind(&self) -> (k: MemoryKind)
        ensures
            k == self.memory_kind_spec(),
    {
        self.state.memory_kind
    }

    /// Observes the current state of one slot.
    pub fn buffer_state(&self, index: usize) -> (r: Option<&BufferState>)
        ensures
            r is Some <==> index < self.slots().len(),
            r matches Some(s) ==> *s == self.slot(index as int).state,
    {
        if index < self.state.registry.len() {
            Some(&self.state.registry.slot_ref(index).state)
        } else {
            None
        }
    }

    /// Counts the slots a claim could currently take.
    pub fn num_free_buffers(&self) -> (n: usize)
        ensures
            n == crate::registry::count_claimable(self.slots()),
    {
        let total = self.state.registry.len();
        let mut n: usize = 0;
        let mut i: usize = 0;
        while i < total
            invariant
                i <= self.slots().len(),
                total == self.slots().len(),
                n <= i,
                n == crate::registry::count_claimable(self.slots().take(i as int)),
            decreases self.slots().len() - i,
        {
            let slot = self.state.registry.slot_ref(i);
            let claimable = matches!(slot.state, BufferState::Free) && !slot.claimed;
            proof {
                assert(self.slots().take(i + 1int).drop_last() =~= self.slots().take(i as int));
                assert(self.slots().take(i + 1int).last() == self.slots()[i as int]);
            }
            if claimable {
                n += 1;
            }
            i += 1;
        }
        proof {
            assert(self.slots().take(self.slots().len() as int) =~= self.slots());
        }
        n
    }

    /// The size in bytes of one plane of one slot, if both exist.
    pub fn plane_size(&self, index: usize, plane: usize) -> (r: Option<usize>)
        ensures
            r is Some <==> (index < self.slots().len() && plane
                < self.slots()[index as int].features.plane_sizes@.len()),
            r matches Some(l) ==> l
                == self.slots()[index as int].features.plane_sizes@[plane as int],
    {
        if index >= self.state.registry.len() {
            return None;
        }
        let sizes = &self.state.registry.slot_ref(index).features.plane_sizes;
        if plane >= sizes.len() {
            return None;
        }
        Some(sizes[plane])
    }

    /// Claims some free, unclaimed slot and builds the pre-submission
    /// buffer for it, or returns `None` when no slot is claimable. No
    /// ordering among free slots is guaranteed.
    pub fn try_get_free_buffer(&mut self) -> (r: Option<QBuffer<D>>)
        ensures
            final(self).memory_kind_spec() == old(self).memory_kind_spec(),
            r is None ==> final(self).slots() == old(self).slots() && (forall|i: int|
                0 <= i < old(self).slots().len() ==> !(#[trigger] old(self).slots()[i]).claimable()),
            r matches Some(buf) ==> ({
                let idx = buf.index_spec() as int;
                &&& 0 <= idx < old(self).slots().len()
                &&& old(self).slots()[idx].claimable()
                &&& final(self).slots() == old(self).slots().update(
                    idx,
                    (BufferSlot {
                        features: old(self).slots()[idx].features,
                        state: BufferState::Free,
                        claimed: true,
                    }),
                )
                &&& buf.num_planes_spec() == old(self).slots()[idx].features.num_planes()
                &&& buf.memory_kind_spec() == old(self).memory_kind_spec()
                &&& buf.timestamp_spec().sec == 0 && buf.timestamp_spec().usec == 0
                &&& buf.wf()
            }),
    {
        match self.state.registry.find_claimable() {
            None => None,
            Some(index) => {
                let num_planes = self.state.registry.slot_ref(index).features.plane_sizes.len();
                self.state.registry.update_state(index, BufferState::Free, true);
                Some(QBuffer::new(index, num_planes, self.state.memory_kind))
            },
        }
    }

    /// Claims the slot with the given index, failing if the index is
    /// out of range or the slot is not currently claimable.
    pub fn try_get_buffer(&mut self, index: usize) -> (r: Result<QBuffer<D>, TryGetBufferError>)
        ensures
            final(self).memory_kind_spec() == old(self).memory_kind_spec(),
            r is Ok <==> (index < old(self).slots().len()
                && old(self).slots()[index as int].claimable()),
            index >= old(self).slots().len() ==> (r matches Err(e) && e
                == TryGetBufferError::InvalidIndex && final(self).slots() == old(self).slots()),
            (index < old(self).slots().len() && !old(self).slots()[index as int].claimable()) ==> (
            r matches Err(e) && e == TryGetBufferError::AlreadyUsed && final(self).slots() == old(self).slots()),
            r matches Ok(buf) ==> ({
                &&& buf.index_spec() == index
                &&& final(self).slots() == old(self).slots().update(
                    index as int,
                    (BufferSlot {
                        features: old(self).slots()[index as int].features,
                        state: BufferState::Free,
                        claimed: true,
                    }),
                )
                &&& buf.num_planes_spec() == old(self).slots()[index as int].features.num_planes()
                &&& buf.memory_kind_spec() == old(self).memory_kind_spec()
                &&& buf.timestamp_spec().sec == 0 && buf.timestamp_spec().usec == 0
                &&& buf.wf()
            }),
    {
        if index >= self.state.registry.len() {
            return Err(TryGetBufferError::InvalidIndex);
        }
        let slot = self.state.registry.slot_ref(index);
        if !(matches!(slot.state, BufferState::Free) && !slot.claimed) {
            return Err(TryGetBufferError::AlreadyUsed);
        }
        let num_planes = self.state.registry.slot_ref(index).features.plane_sizes.len();
        self.state.registry.update_state(index, BufferState::Free, true);
        Ok(QBuffer::new(index, num_planes, self.state.memory_kind))
    }

    /// Applies the outcome of the device's retrieve call. On success
    /// the reported slot moves from `Queued` to `Dequeued` and the
    /// handles stored at submission pass into the returned
    /// post-retrieval buffer, along with the sequence number, per-plane
    /// byte usage and timestamp the device reported. A report naming a
    /// slot that is not queued is an internal inconsistency and changes
    /// nothing.
    pub fn try_dequeue(&mut self, outcome: Result<RetrievedSlotInfo, DeviceError>) -> (r: Result<
        DQBuffer,
        DequeueError,
    >)
        ensures
            final(self).memory_kind_spec() == old(self).memory_kind_spec(),
            (match outcome {
                Err(e) => r matches Err(de) && de == DequeueError::Device(e) && final(self).slots()
                    == old(self).slots(),
                Ok(info) => if info.index < old(self).slots().len() && old(self).slots()[
                    info.index as int
                ].state is Queued {
                    r matches Ok(d) && ({
                        let idx = info.index as int;
                        &&& d.index_spec() == info.index
                        &&& d.handles_spec() == old(self).slots()[idx].state->Queued_0
                        &&& d.plane_sizes_spec() == old(self).slots()[idx].features.plane_sizes@
                        &&& d.sequence_spec() == info.sequence
                        &&& d.bytes_used_spec() == info.bytes_used@
                        &&& d.timestamp_spec() == info.timestamp
                        &&& final(self).slots() == old(self).slots().update(
                            idx,
                            (BufferSlot {
                                features: old(self).slots()[idx].features,
                                state: BufferState::Dequeued,
                                claimed: old(self).slots()[idx].claimed,
                            }),
                        )
                        &&& cycle_step(old(self).slots()[idx].state, final(self).slots()[idx].state)
                    })
                } else {
                    r matches Err(de) && de == DequeueError::InconsistentState(info.index) && final(self).slots() == old(self).slots()
                },
            }),
    {
        match outcome {
            Err(e) => Err(DequeueError::Device(e)),
            Ok(info) => {
                let RetrievedSlotInfo { index, sequence, bytes_used, timestamp } = info;
                if index >= self.state.registry.len() {
                    return Err(DequeueError::InconsistentState(index));
                }
                let slot = self.state.registry.slot_ref(index);
                if !matches!(slot.state, BufferState::Queued(_)) {
                    return Err(DequeueError::InconsistentState(index));
                }
                let claimed = slot.claimed;
                let plane_sizes = crate::registry::copy_sizes(&slot.features.plane_sizes);
                let prev = self.state.registry.take_state(index, BufferState::Dequeued, claimed);
                let handles = match prev {
                    BufferState::Queued(h) => h,
                    _ => vstd::pervasive::unreached(),
                };
                Ok(DQBuffer::new(index, handles, plane_sizes, sequence, bytes_used, timestamp))
            },
        }
    }

    /// Deallocates the buffers, returning the queue to the
    /// `QueueInit` phase. Only legal while the queue is idle: no slot
    /// queued, dequeued, or claimed; otherwise the queue is handed
    /// back unchanged.
    pub fn free_buffers(self) -> (r: Result<Queue<D, QueueInit>, Queue<D, BuffersAllocated>>)
        ensures
            r is Ok <==> self.idle(),
            r matches Err(q) ==> q == self,
    {
        let total = self.state.registry.len();
        let mut i: usize = 0;
        while i < total
            invariant
                i <= self.slots().len(),
                total == self.slots().len(),
                forall|j: int|
                    0 <= j < i ==> (#[trigger] self.slots()[j]).state is Free
                        && !self.slots()[j].claimed,
            decreases self.slots().len() - i,
        {
            let slot = self.state.registry.slot_ref(i);
            if !(matches!(slot.state, BufferState::Free) && !slot.claimed) {
                return Err(self);
            }
            i += 1;
        }
        Ok(Queue { state: QueueInit, _d: PhantomData })
    }

    /// Replaces the state and claim mark of one slot through the
    /// registry's single mutation path.
    pub(crate) fn registry_update(&mut self, index: usize, state: BufferState, claimed: bool)
        requires
            index < old(self).slots().len(),
        ensures
            final(self).memory_kind_spec() == old(self).memory_kind_spec(),
            final(self).slots() == old(self).slots().update(
                index as int,
                (BufferSlot {
                    features: old(self).slots()[index as int].features,
                    state: state,
                    claimed: claimed,
                }),
            ),
    {
        self.state.registry.update_state(index, state, claimed);
    }

    /// Fires a fuse against this queue's registry.
    pub(crate) fn fire_fuse(&mut self, fuse: &mut BufferStateFuse)
        ensures
            final(self).memory_kind_spec() == old(self).memory_kind_spec(),
            !final(fuse).armed_spec(),
            (old(fuse).armed_spec() && old(fuse).index_spec() < old(self).slots().len()) ==> final(self).slots() == old(self).slots().update(
                old(fuse).index_spec() as int,
                (BufferSlot {
                    features: old(self).slots()[old(fuse).index_spec() as int].features,
                    state: BufferState::Free,
                    claimed: false,
                }),
            ),
            !(old(fuse).armed_spec() && old(fuse).index_spec() < old(self).slots().len()) ==> final(self).slots() == old(self).slots(),
    {
        fuse.fire(&mut self.state.registry);
    }
}

} // verus!
