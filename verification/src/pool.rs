//! The bookkeeping of a warm instance pool.
//!
//! A pool owns a fixed number of slots. Each slot is idle (its instance waits
//! in the pool), checked out (a request is using its instance), pending (its
//! instance is being built, at start-up or to replace a discarded one) or lost
//! (a replacement could not be built). A checked-out instance goes back to the
//! pool only when its call completed cleanly; otherwise it may be left
//! non-reentrant, so it is discarded and a fresh one is built in its place.
use vstd::prelude::*;

verus! {

/// What happens to a checked-out instance when its handle is released.
#[derive(PartialEq, Eq, Structural, Clone, Copy, Debug)]
pub enum ReleaseAction {
    /// The handle no longer held an instance.
    Nothing,
    /// The call completed cleanly: the instance goes back to the pool.
    ReturnToPool,
    /// The instance is discarded and a fresh one is built to refill the slot.
    Rebuild,
    /// The instance is discarded and, with no runtime to build on, the slot stays empty.
    Discard,
}

/// The decision taken when a checked-out handle is released.
pub open spec fn release_decision(has_item: bool, committed: bool, runtime_available: bool) -> ReleaseAction {
    if !has_item {
        ReleaseAction::Nothing
    } else if committed {
        ReleaseAction::ReturnToPool
    } else if runtime_available {
        ReleaseAction::Rebuild
    } else {
        ReleaseAction::Discard
    }
}

/// The number of instances a pool is built with: the requested size, but at least one.
pub open spec fn capacity_for(size: usize) -> usize {
    if size == 0 { 1 } else { size }
}

/// A pool has as many slots as were asked for, and one when none were:
/// its capacity is `max(size, 1)`.
pub proof fn lemma_capacity_is_size(size: usize)
    ensures
        capacity_for(size) >= size,
        capacity_for(size) >= 1,
        capacity_for(size) == size || (size == 0 && capacity_for(size) == 1),
{
}

/// The slot accounting of one pool.
pub struct PoolLedger {
    capacity: usize,
    idle: usize,
    checked_out: usize,
    pending: usize,
    lost: usize,
}

impl PoolLedger {
    /// Every slot is in exactly one state, and there is at least one slot.
    pub closed spec fn wf(&self) -> bool {
        &&& self.capacity >= 1
        &&& self.idle + self.checked_out + self.pending + self.lost == self.capacity
    }

    pub closed spec fn capacity_spec(&self) -> nat {
        self.capacity as nat
    }

    pub closed spec fn idle_spec(&self) -> nat {
        self.idle as nat
    }

    pub closed spec fn checked_out_spec(&self) -> nat {
        self.checked_out as nat
    }

    pub closed spec fn pending_spec(&self) -> nat {
        self.pending as nat
    }

    pub closed spec fn lost_spec(&self) -> nat {
        self.lost as nat
    }

    /// A pool about to be filled: `max(size, 1)` slots, all waiting for their
    /// first instance.
    pub fn new(size: usize) -> (p: Self)
        ensures
            p.wf(),
            p.capacity_spec() == capacity_for(size),
            size >= 1 ==> p.capacity_spec() == size,
            size == 0 ==> p.capacity_spec() == 1,
            p.pending_spec() == capacity_for(size),
            p.idle_spec() == 0,
            p.checked_out_spec() == 0,
            p.lost_spec() == 0,
    {
        let capacity = if size == 0 { 1 } else { size };
        PoolLedger { capacity, idle: 0, checked_out: 0, pending: capacity, lost: 0 }
    }

    /// Number of slots.
    pub fn capacity(&self) -> (n: usize)
        ensures
            n == self.capacity_spec(),
    {
        self.capacity
    }

    /// Number of instances waiting in the pool.
    pub fn idle(&self) -> (n: usize)
        ensures
            n == self.idle_spec(),
    {
        self.idle
    }

    /// Number of slots still waiting for an instance.
    pub fn pending(&self) -> (n: usize)
        ensures
            n == self.pending_spec(),
    {
        self.pending
    }

    /// A pending slot received its instance, which is put into the pool.
    /// The pool always has room for it.
    pub fn fill(&mut self)
        requires
            old(self).wf(),
            old(self).pending_spec() > 0,
        ensures
            final(self).wf(),
            old(self).idle_spec() < old(self).capacity_spec(),
            final(self).idle_spec() == old(self).idle_spec() + 1,
            final(self).pending_spec() == old(self).pending_spec() - 1,
            final(self).capacity_spec() == old(self).capacity_spec(),
            final(self).checked_out_spec() == old(self).checked_out_spec(),
            final(self).lost_spec() == old(self).lost_spec(),
    {
        self.pending = self.pending - 1;
        self.idle = self.idle + 1;
    }

    /// Building the instance of a pending slot failed; the slot stays empty.
    pub fn fail_fill(&mut self)
        requires
            old(self).wf(),
            old(self).pending_spec() > 0,
        ensures
            final(self).wf(),
            final(self).pending_spec() == old(self).pending_spec() - 1,
            final(self).lost_spec() == old(self).lost_spec() + 1,
            final(self).capacity_spec() == old(self).capacity_spec(),
            final(self).idle_spec() == old(self).idle_spec(),
            final(self).checked_out_spec() == old(self).checked_out_spec(),
    {
        self.pending = self.pending - 1;
        self.lost = self.lost + 1;
    }

    /// An idle instance is handed to a request.
    pub fn check_out(&mut self)
        requires
            old(self).wf(),
            old(self).idle_spec() > 0,
        ensures
            final(self).wf(),
            final(self).idle_spec() == old(self).idle_spec() - 1,
            final(self).checked_out_spec() == old(self).checked_out_spec() + 1,
            final(self).capacity_spec() == old(self).capacity_spec(),
            final(self).pending_spec() == old(self).pending_spec(),
            final(self).lost_spec() == old(self).lost_spec(),
    {
        self.idle = self.idle - 1;
        self.checked_out = self.checked_out + 1;
    }

    /// A checked-out handle is released. A cleanly committed instance returns
    /// to the pool (which always has room for it); any other is discarded, and
    /// its slot is rebuilt when a runtime is available to build on.
    pub fn release(&mut self, has_item: bool, committed: bool, runtime_available: bool) -> (a: ReleaseAction)
        requires
            old(self).wf(),
            old(self).checked_out_spec() > 0,
        ensures
            final(self).wf(),
            a == release_decision(has_item, committed, runtime_available),
            final(self).capacity_spec() == old(self).capacity_spec(),
            a == ReleaseAction::ReturnToPool ==> old(self).idle_spec() < old(self).capacity_spec(),
            final(self).idle_spec() == old(self).idle_spec() + if a == ReleaseAction::ReturnToPool { 1int } else { 0 },
            final(self).checked_out_spec() == old(self).checked_out_spec() - if a == ReleaseAction::Nothing { 0int } else { 1 },
            final(self).pending_spec() == old(self).pending_spec() + if a == ReleaseAction::Rebuild { 1int } else { 0 },
            final(self).lost_spec() == old(self).lost_spec() + if a == ReleaseAction::Discard { 1int } else { 0 },
    {
        if !has_item {
            return ReleaseAction::Nothing;
        }
        self.checked_out = self.checked_out - 1;
        if committed {
            self.idle = self.idle + 1;
            ReleaseAction::ReturnToPool
        } else if runtime_available {
            self.pending = self.pending + 1;
            ReleaseAction::Rebuild
        } else {
            self.lost = self.lost + 1;
            ReleaseAction::Discard
        }
    }
}

/// Every slot of a pool is in exactly one state: the idle, checked-out,
/// pending and lost slots add up to the capacity, which is at least one.
/// Every operation keeps this, so once the pending rebuilds have finished
/// and none has failed (no slot is lost), the idle and checked-out instances
/// fill the pool exactly.
pub proof fn lemma_slots_add_up(p: PoolLedger)
    requires
        p.wf(),
    ensures
        p.idle_spec() + p.checked_out_spec() + p.pending_spec() + p.lost_spec() == p.capacity_spec(),
        p.capacity_spec() >= 1,
        p.pending_spec() == 0 && p.lost_spec() == 0 ==> p.idle_spec() + p.checked_out_spec() == p.capacity_spec(),
{
}

/// A released instance never pushes the pool past its capacity, whatever
/// sequence of checkouts and releases came before: in every reachable state
/// the idle instances and the instances that can come back never exceed it.
pub proof fn lemma_return_has_room(p: PoolLedger)
    requires
        p.wf(),
        p.checked_out_spec() > 0 || p.pending_spec() > 0,
    ensures
        p.idle_spec() < p.capacity_spec(),
{
}

} // verus!
