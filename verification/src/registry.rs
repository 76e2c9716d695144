//! The buffer registry and the safety fuse.
//!
//! The registry is the single source of truth for per-slot state. Each
//! slot holds its fixed features (index, per-plane sizes), its current
//! lifecycle state, and a claim mark that records an outstanding
//! pre-submission buffer. All mutation goes through one update
//! operation, so every observer sees a single consistent state per
//! slot.

use vstd::prelude::*;
use vstd::pervasive::VecAdditionalExecFns;

use crate::memory::HandleSet;

verus! {

/// The lifecycle state of one buffer slot. Exactly one of these holds
/// at any time; legal transitions cycle `Free` to `Queued` to
/// `Dequeued` and back to `Free`.
#[derive(Debug)]
pub enum BufferState {
    /// Available to be claimed by a pre-submission buffer.
    Free,
    /// Submitted to the device; the registry owns the memory handles
    /// the application supplied.
    Queued(HandleSet),
    /// Retrieved from the device; the handles have moved to the
    /// post-retrieval buffer held by the application.
    Dequeued,
}

/// The one legal state transition cycle of a slot under successful
/// operations: submit takes `Free` to `Queued`, retrieve takes
/// `Queued` to `Dequeued`, recycle takes `Dequeued` back to `Free`.
pub open spec fn cycle_step(pre: BufferState, post: BufferState) -> bool {
    ||| (pre is Free && post is Queued)
    ||| (pre is Queued && post is Dequeued)
    ||| (pre is Dequeued && post is Free)
}

/// State cycle closure: a lifecycle step taken by a successful
/// operation moves a slot only along the cycle. Starting `Free`, a
/// successful submit leaves it `Queued`; a successful retrieve leaves
/// a queued slot `Dequeued`; a recycle leaves a dequeued slot `Free`;
/// no step of the cycle reaches any other state.
pub proof fn lemma_cycle_closure(pre: BufferState, post: BufferState)
    requires
        cycle_step(pre, post),
    ensures
        pre is Free ==> post is Queued,
        pre is Queued ==> post is Dequeued,
        pre is Dequeued ==> post is Free,
{
}

/// How many of the given slots a claim could currently take.
pub open spec fn count_claimable(s: Seq<BufferSlot>) -> nat
    decreases s.len(),
{
    if s.len() == 0 {
        0
    } else {
        count_claimable(s.drop_last()) + (if s.last().claimable() {
            1nat
        } else {
            0nat
        })
    }
}

/// Static features of a slot, fixed when the queue allocates its
/// buffers.
#[derive(Debug)]
pub struct BufferFeatures {
    /// The slot's index within its queue.
    pub index: usize,
    /// The size in bytes of each plane of the slot.
    pub plane_sizes: Vec<usize>,
}

impl BufferFeatures {
    /// How many planes the slot has.
    pub open spec fn num_planes(&self) -> nat {
        self.plane_sizes@.len()
    }
}

/// One registry record: fixed features plus the mutable current state.
#[derive(Debug)]
pub struct BufferSlot {
    pub features: BufferFeatures,
    pub state: BufferState,
    /// Whether a pre-submission buffer bound to this slot is
    /// outstanding. A claimed slot cannot be claimed again until its
    /// buffer is submitted or abandoned.
    pub claimed: bool,
}

impl BufferSlot {
    /// A slot can be claimed while it is free and no pre-submission
    /// buffer for it is outstanding.
    pub open spec fn claimable(&self) -> bool {
        self.state is Free && !self.claimed
    }
}

/// The per-queue buffer registry: one record per allocated slot.
#[derive(Debug)]
pub struct Registry {
    slots: Vec<BufferSlot>,
}

impl View for Registry {
    type V = Seq<BufferSlot>;

    closed spec fn view(&self) -> Seq<BufferSlot> {
        self.slots@
    }
}

impl Registry {
    /// A registry of `count` fresh free slots, each with the given
    /// per-plane sizes.
    pub fn new_allocated(count: usize, plane_sizes: &Vec<usize>) -> (r: Registry)
        ensures
            r@.len() == count,
            forall|i: int|
                0 <= i < count ==> (#[trigger] r@[i]).state is Free && !r@[i].claimed
                    && r@[i].features.index == i && r@[i].features.plane_sizes@ == plane_sizes@,
    {
        let mut slots: Vec<BufferSlot> = Vec::new();
        let mut i: usize = 0;
        while i < count
            invariant
                i <= count,
                slots@.len() == i,
                forall|j: int|
                    0 <= j < i ==> (#[trigger] slots@[j]).state is Free && !slots@[j].claimed
                        && slots@[j].features.index == j
                        && slots@[j].features.plane_sizes@ == plane_sizes@,
            decreases count - i,
        {
            let sizes = copy_sizes(plane_sizes);
            slots.push(
                BufferSlot {
                    features: BufferFeatures { index: i, plane_sizes: sizes },
                    state: BufferState::Free,
                    claimed: false,
                },
            );
            i += 1;
        }
        Registry { slots }
    }

    /// How many slots the registry holds.
    pub fn len(&self) -> (n: usize)
        ensures
            n == self@.len(),
    {
        self.slots.len()
    }

    /// A view of one slot's record.
    pub fn slot_ref(&self, index: usize) -> (s: &BufferSlot)
        requires
            index < self@.len(),
        ensures
            *s == self@[index as int],
    {
        &self.slots[index]
    }

    /// The single mutation path of the registry: atomically replaces
    /// the state and claim mark of one slot, returning the previous
    /// state so that any handles it owned pass to the caller.
    pub fn take_state(&mut self, index: usize, new_state: BufferState, claimed: bool) -> (prev:
        BufferState)
        requires
            index < old(self)@.len(),
        ensures
            final(self)@ == old(self)@.update(
                index as int,
                (BufferSlot {
                    features: old(self)@[index as int].features,
                    state: new_state,
                    claimed: claimed,
                }),
            ),
            prev == old(self)@[index as int].state,
    {
        let mut tmp = BufferSlot {
            features: BufferFeatures { index: 0, plane_sizes: Vec::new() },
            state: BufferState::Dequeued,
            claimed: false,
        };
        self.slots.set_and_swap(index, &mut tmp);
        let BufferSlot { features, state, claimed: _ } = tmp;
        self.slots.set(index, BufferSlot { features, state: new_state, claimed });
        proof {
            assert(self@ =~= old(self)@.update(
                index as int,
                BufferSlot {
                    features: old(self)@[index as int].features,
                    state: new_state,
                    claimed: claimed,
                },
            ));
        }
        state
    }

    /// Replaces the state and claim mark of one slot, dropping the
    /// previous state.
    pub fn update_state(&mut self, index: usize, new_state: BufferState, claimed: bool)
        requires
            index < old(self)@.len(),
        ensures
            final(self)@ == old(self)@.update(
                index as int,
                (BufferSlot {
                    features: old(self)@[index as int].features,
                    state: new_state,
                    claimed: claimed,
                }),
            ),
    {
        let _prev = self.take_state(index, new_state, claimed);
    }

    /// Scans for some claimable slot, in no guaranteed order.
    pub fn find_claimable(&self) -> (r: Option<usize>)
        ensures
            r is None ==> (forall|i: int| 0 <= i < self@.len() ==> !(#[trigger] self@[i]).claimable()),
            r matches Some(index) ==> index < self@.len() && self@[index as int].claimable(),
    {
        let mut i: usize = 0;
        while i < self.slots.len()
            invariant
                i <= self@.len(),
                forall|j: int| 0 <= j < i ==> !(#[trigger] self@[j]).claimable(),
            decreases self@.len() - i,
        {
            let slot = &self.slots[i];
            if matches!(slot.state, BufferState::Free) && !slot.claimed {
                return Some(i);
            }
            i += 1;
        }
        None
    }
}

/// The slot records after a fuse fires against them: if the fuse is
/// armed and its slot exists, that slot is forced back to `Free` and
/// unclaimed; otherwise nothing changes.
pub open spec fn slots_after_fire(pre: Seq<BufferSlot>, fuse: BufferStateFuse) -> Seq<BufferSlot> {
    if fuse.armed_spec() && fuse.index_spec() < pre.len() {
        pre.update(
            fuse.index_spec() as int,
            BufferSlot {
                features: pre[fuse.index_spec() as int].features,
                state: BufferState::Free,
                claimed: false,
            },
        )
    } else {
        pre
    }
}

/// Fuse safety: firing an armed fuse bound to an existing slot forces
/// that slot to `Free` and unclaimed, whatever state it was in, and
/// leaves every other slot untouched. Firing is idempotent: a fired
/// fuse is disarmed, and `slots_after_fire` of a disarmed fuse changes
/// nothing.
pub proof fn lemma_fire_resets_to_free(pre: Seq<BufferSlot>, fuse: BufferStateFuse)
    requires
        fuse.armed_spec(),
        fuse.index_spec() < pre.len(),
    ensures
        slots_after_fire(pre, fuse).len() == pre.len(),
        slots_after_fire(pre, fuse)[fuse.index_spec() as int].state is Free,
        !slots_after_fire(pre, fuse)[fuse.index_spec() as int].claimed,
        forall|i: int|
            0 <= i < pre.len() && i != fuse.index_spec() ==> slots_after_fire(pre, fuse)[i]
                == pre[i],
{
}

/// A guard bound to one registry slot. It is armed on creation; the
/// success path of a submit disarms it, and any abandoned in-flight
/// operation fires it instead, which forces the slot back to `Free`.
/// The binding is a plain slot index resolved at fire time, so a
/// registry that no longer covers the index makes firing a no-op.
#[derive(Debug)]
pub struct BufferStateFuse {
    armed: bool,
    index: usize,
}

impl BufferStateFuse {
    /// Whether the fuse is still armed.
    pub closed spec fn armed_spec(&self) -> bool {
        self.armed
    }

    /// The slot the fuse is bound to.
    pub closed spec fn index_spec(&self) -> usize {
        self.index
    }

    /// A fresh fuse, armed and bound to the given slot.
    pub fn new(index: usize) -> (f: BufferStateFuse)
        ensures
            f.armed_spec(),
            f.index_spec() == index,
    {
        BufferStateFuse { armed: true, index }
    }

    /// Disarms the fuse: called exactly once, on the success path of a
    /// submit, after the device call has succeeded. Firing afterwards
    /// is a no-op.
    pub fn disarm(&mut self)
        ensures
            !final(self).armed_spec(),
            final(self).index_spec() == old(self).index_spec(),
    {
        self.armed = false;
    }

    /// Fires the fuse: if still armed and the bound slot exists, the
    /// slot is forced back to `Free` and unclaimed, whatever state it
    /// was in; any handles it owned are dropped with that state.
    /// Firing is idempotent and never leaves a slot unreclaimable.
    pub fn fire(&mut self, registry: &mut Registry)
        ensures
            !final(self).armed_spec(),
            final(self).index_spec() == old(self).index_spec(),
            (old(self).armed_spec() && old(self).index_spec() < old(registry)@.len())
                ==> final(registry)@ == old(registry)@.update(
                old(self).index_spec() as int,
                (BufferSlot {
                    features: old(registry)@[old(self).index_spec() as int].features,
                    state: BufferState::Free,
                    claimed: false,
                }),
            ),
            !(old(self).armed_spec() && old(self).index_spec() < old(registry)@.len())
                ==> final(registry)@ == old(registry)@,
    {
        if self.armed {
            if self.index < registry.len() {
                registry.update_state(self.index, BufferState::Free, false);
            }
            self.armed = false;
        }
    }
}

/// Copies a plane-size list into a fresh vector.
pub(crate) fn copy_sizes(v: &Vec<usize>) -> (r: Vec<usize>)
    ensures
        r@ == v@,
{
    let mut r: Vec<usize> = Vec::new();
    let mut i: usize = 0;
    while i < v.len()
        invariant
            i <= v@.len(),
            r@ == v@.take(i as int),
        decreases v@.len() - i,
    {
        r.push(v[i]);
        proof {
            assert(r@ =~= v@.take(i + 1 as int));
        }
        i += 1;
    }
    proof {
        assert(v@.take(v@.len() as int) =~= v@);
    }
    r
}

} // verus!
