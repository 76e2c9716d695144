//! Post-retrieval buffers.
//!
//! A [`DQBuffer`] is the dual of the pre-submission buffer: it is
//! produced when a queued slot is retrieved from the device, owns the
//! memory handles stored at submission, and carries what the device
//! reported (sequence number, per-plane byte usage, timestamp). It can
//! expose plane mappings for mappable memory kinds, and recycling it
//! returns the slot to the free pool and the handles to the caller.

use vstd::prelude::*;

use crate::device::{PlaneMapping, Timestamp};
use crate::memory::{kind_is_mappable, HandleSet};
use crate::queue::{BuffersAllocated, Direction, Queue};
use crate::registry::{cycle_step, BufferSlot, BufferState};

verus! {

/// A buffer slot retrieved from the device, owning the handles the
/// application supplied at submission.
pub struct DQBuffer {
    index: usize,
    handles: HandleSet,
    plane_sizes: Vec<usize>,
    sequence: u32,
    bytes_used: Vec<usize>,
    timestamp: Timestamp,
}

impl DQBuffer {
    /// The index of the retrieved slot.
    pub closed spec fn index_spec(&self) -> usize {
        self.index
    }

    /// The handle set moved out of the registry on retrieval.
    pub closed spec fn handles_spec(&self) -> HandleSet {
        self.handles
    }

    /// The per-plane sizes of the retrieved slot.
    pub closed spec fn plane_sizes_spec(&self) -> Seq<usize> {
        self.plane_sizes@
    }

    /// The frame sequence number the device reported.
    pub closed spec fn sequence_spec(&self) -> u32 {
        self.sequence
    }

    /// How many bytes the device used in each plane.
    pub closed spec fn bytes_used_spec(&self) -> Seq<usize> {
        self.bytes_used@
    }

    /// The timestamp the device attached.
    pub closed spec fn timestamp_spec(&self) -> Timestamp {
        self.timestamp
    }

    /// Builds the post-retrieval buffer for a slot just moved to
    /// `Dequeued`.
    pub(crate) fn new(
        index: usize,
        handles: HandleSet,
        plane_sizes: Vec<usize>,
        sequence: u32,
        bytes_used: Vec<usize>,
        timestamp: Timestamp,
    ) -> (d: DQBuffer)
        ensures
            d.index_spec() == index,
            d.handles_spec() == handles,
            d.plane_sizes_spec() == plane_sizes@,
            d.sequence_spec() == sequence,
            d.bytes_used_spec() == bytes_used@,
            d.timestamp_spec() == timestamp,
    {
        DQBuffer { index, handles, plane_sizes, sequence, bytes_used, timestamp }
    }

    /// Returns the index of the retrieved slot.
    pub fn index(&self) -> (r: usize)
        ensures
            r == self.index_spec(),
    {
        self.index
    }

    /// Returns the frame sequence number the device reported.
    pub fn sequence(&self) -> (r: u32)
        ensures
            r == self.sequence_spec(),
    {
        self.sequence
    }

    /// How many bytes the device used in each plane.
    pub fn bytes_used(&self) -> (b: &Vec<usize>)
        ensures
            b@ == self.bytes_used_spec(),
    {
        &self.bytes_used
    }

    /// Returns the timestamp the device attached.
    pub fn timestamp(&self) -> (t: Timestamp)
        ensures
            t == self.timestamp_spec(),
    {
        self.timestamp
    }

    /// The handles the registry owned while the slot was queued.
    pub fn handles(&self) -> (h: &HandleSet)
        ensures
            *h == self.handles_spec(),
    {
        &self.handles
    }

    /// Mapping accessor for one plane of the retrieved data, available
    /// if the buffer's memory kind is mappable.
    pub fn get_plane_mapping(&self, plane: usize) -> (r: Option<PlaneMapping>)
        ensures
            r is Some <==> (kind_is_mappable(self.handles_spec().kind_spec()) && plane
                < self.plane_sizes_spec().len()),
            r matches Some(m) ==> m.index == self.index_spec() && m.plane == plane && m.length
                == self.plane_sizes_spec()[plane as int],
    {
        if !self.handles.kind().is_mappable() {
            return None;
        }
        if plane >= self.plane_sizes.len() {
            return None;
        }
        Some(PlaneMapping { index: self.index, plane, length: self.plane_sizes[plane] })
    }

    /// Recycles the buffer: the slot returns to the free pool and the
    /// handle set passes back to the caller. For a self-backed kind
    /// the set is empty and the slot is simply free again; for any
    /// other kind the caller resubmits the returned handles through a
    /// fresh pre-submission buffer.
    pub fn recycle<D: Direction>(self, queue: &mut Queue<D, BuffersAllocated>) -> (h: HandleSet)
        requires
            self.index_spec() < old(queue).slots().len(),
            old(queue).slots()[self.index_spec() as int].state is Dequeued,
        ensures
            h == self.handles_spec(),
            final(queue).memory_kind_spec() == old(queue).memory_kind_spec(),
            final(queue).slots() == old(queue).slots().update(
                self.index_spec() as int,
                (BufferSlot {
                    features: old(queue).slots()[self.index_spec() as int].features,
                    state: BufferState::Free,
                    claimed: false,
                }),
            ),
            cycle_step(
                old(queue).slots()[self.index_spec() as int].state,
                final(queue).slots()[self.index_spec() as int].state,
            ),
    {
        queue.registry_update(self.index, BufferState::Free, false);
        self.handles
    }
}

} // verus!
