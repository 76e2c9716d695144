//! The memory-handle abstraction.
//!
//! A buffer slot is backed by one memory handle per plane, all of the
//! same kind. Three backing strategies exist: device-mapped memory
//! (the device owns the storage), user-pointer memory (the application
//! owns it), and externally-shared buffer descriptors. Two optional
//! capabilities layer on top of a kind: *self-backed* (submission needs
//! no application-supplied handle) and *mappable* (the plane can be
//! exposed as a directly addressable memory view).

use vstd::prelude::*;

use crate::device::PlaneBinding;

verus! {

/// The backing strategy of a handle set, fixed per queue at allocation
/// time.
#[derive(Clone, Copy, Debug, PartialEq, Eq, Structural)]
pub enum MemoryKind {
    /// Driver-allocated storage, reachable through a mapping operation.
    DeviceMapped,
    /// Application-allocated memory handed to the device by pointer.
    UserPointer,
    /// A cross-process/cross-subsystem buffer descriptor.
    SharedDescriptor,
}

/// A self-backed kind needs no application-supplied handle on
/// submission: the device provides the storage.
pub open spec fn kind_is_self_backed(kind: MemoryKind) -> bool {
    kind is DeviceMapped
}

/// A mappable kind can expose a plane as a direct memory view.
pub open spec fn kind_is_mappable(kind: MemoryKind) -> bool {
    kind is DeviceMapped
}

impl MemoryKind {
    /// Whether the device itself provides the storage for this kind.
    pub fn is_self_backed(&self) -> (r: bool)
        ensures
            r == kind_is_self_backed(*self),
    {
        matches!(self, MemoryKind::DeviceMapped)
    }

    /// Whether this kind supports direct memory views.
    pub fn is_mappable(&self) -> (r: bool)
        ensures
            r == kind_is_mappable(*self),
    {
        matches!(self, MemoryKind::DeviceMapped)
    }
}

/// One per-plane memory handle.
#[derive(Debug, PartialEq, Eq)]
pub enum MemoryHandle {
    /// Device-mapped storage: the handle carries nothing, the device
    /// already owns the memory.
    DeviceMapped,
    /// Application-owned memory for one plane.
    UserPointer(Vec<u8>),
    /// A shared buffer descriptor for one plane.
    SharedDescriptor(u64),
}

impl MemoryHandle {
    /// The kind this handle belongs to.
    pub open spec fn kind_spec(&self) -> MemoryKind {
        match self {
            MemoryHandle::DeviceMapped => MemoryKind::DeviceMapped,
            MemoryHandle::UserPointer(_) => MemoryKind::UserPointer,
            MemoryHandle::SharedDescriptor(_) => MemoryKind::SharedDescriptor,
        }
    }

    /// Returns the kind this handle belongs to.
    pub fn kind(&self) -> (k: MemoryKind)
        ensures
            k == self.kind_spec(),
    {
        match self {
            MemoryHandle::DeviceMapped => MemoryKind::DeviceMapped,
            MemoryHandle::UserPointer(_) => MemoryKind::UserPointer,
            MemoryHandle::SharedDescriptor(_) => MemoryKind::SharedDescriptor,
        }
    }

    /// The device-level plane binding this handle populates.
    pub open spec fn binding_spec(&self) -> PlaneBinding {
        match self {
            MemoryHandle::DeviceMapped => PlaneBinding::Device,
            MemoryHandle::UserPointer(b) => PlaneBinding::User { length: b@.len() as usize },
            MemoryHandle::SharedDescriptor(d) => PlaneBinding::Shared { descriptor: *d },
        }
    }

    /// Populates the device-level descriptor entry for this handle.
    pub fn binding(&self) -> (p: PlaneBinding)
        ensures
            p == self.binding_spec(),
    {
        match self {
            MemoryHandle::DeviceMapped => PlaneBinding::Device,
            MemoryHandle::UserPointer(b) => PlaneBinding::User { length: b.len() },
            MemoryHandle::SharedDescriptor(d) => PlaneBinding::Shared { descriptor: *d },
        }
    }
}

/// A full handle set for one buffer: one handle per plane, all of the
/// same kind. A self-backed submission uses an empty set, since the
/// device provides the storage.
#[derive(Debug, PartialEq, Eq)]
pub struct HandleSet {
    kind: MemoryKind,
    planes: Vec<MemoryHandle>,
}

impl View for HandleSet {
    type V = Seq<MemoryHandle>;

    closed spec fn view(&self) -> Seq<MemoryHandle> {
        self.planes@
    }
}

impl HandleSet {
    /// The kind every handle of this set belongs to.
    pub closed spec fn kind_spec(&self) -> MemoryKind {
        self.kind
    }

    /// Every handle of the set matches the set's kind.
    pub open spec fn wf(&self) -> bool {
        forall|i: int| 0 <= i < self@.len() ==> self@[i].kind_spec() == self.kind_spec()
    }

    /// An empty handle set of the given kind, as used by self-backed
    /// submissions.
    pub fn empty(kind: MemoryKind) -> (h: HandleSet)
        ensures
            h.kind_spec() == kind,
            h@.len() == 0,
            h.wf(),
    {
        HandleSet { kind, planes: Vec::new() }
    }

    /// Builds a handle set from single-kind handles. If any handle is
    /// of another kind, the handles are returned unchanged to the
    /// caller.
    pub fn from_handles(kind: MemoryKind, handles: Vec<MemoryHandle>) -> (r: Result<
        HandleSet,
        Vec<MemoryHandle>,
    >)
        ensures
            r is Ok <==> (forall|i: int|
                0 <= i < handles@.len() ==> handles@[i].kind_spec() == kind),
            r matches Ok(h) ==> h@ == handles@ && h.kind_spec() == kind && h.wf(),
            r matches Err(v) ==> v == handles,
    {
        let mut i: usize = 0;
        while i < handles.len()
            invariant
                i <= handles@.len(),
                forall|j: int| 0 <= j < i ==> handles@[j].kind_spec() == kind,
            decreases handles@.len() - i,
        {
            if !(handles[i].kind() == kind) {
                return Err(handles);
            }
            i += 1;
        }
        Ok(HandleSet { kind, planes: handles })
    }

    /// The number of planes this set covers.
    pub fn len(&self) -> (n: usize)
        ensures
            n == self@.len(),
    {
        self.planes.len()
    }

    /// Returns the kind of the set.
    pub fn kind(&self) -> (k: MemoryKind)
        ensures
            k == self.kind_spec(),
    {
        self.kind
    }

    /// The handle bound to the given plane.
    pub fn get(&self, i: usize) -> (h: &MemoryHandle)
        requires
            i < self@.len(),
        ensures
            *h == self@[i as int],
    {
        &self.planes[i]
    }

    /// Extracts the handles, handing ownership back to the caller.
    pub fn into_handles(self) -> (v: Vec<MemoryHandle>)
        ensures
            v@ == self@,
    {
        self.planes
    }
}

} // verus!
