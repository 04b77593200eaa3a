//! Admission gate: a counted pool of execution slots that bounds the
//! number of pipeline runs in flight.
//!
//! Waiting for a slot is the scheduler's business; the slot count
//! itself is exact: a permit is handed out if and only if a slot is
//! free, and a released permit frees exactly one slot.

use vstd::prelude::*;

verus! {

/// Slots available when no configuration says otherwise.
pub const DEFAULT_GATE_CAPACITY: u32 = 3;

/// Capability witnessing one occupied execution slot.
pub struct GatePermit {
    _reserved: (),
}

/// Bounded pool of execution slots.
pub struct AdmissionGate {
    capacity: u32,
    in_use: u32,
}

impl AdmissionGate {
    /// Total number of slots.
    pub closed spec fn capacity(&self) -> u32 {
        self.capacity
    }

    /// Slots currently held by outstanding permits.
    pub closed spec fn in_use(&self) -> u32 {
        self.in_use
    }

    /// Outstanding permits never exceed the capacity.
    pub open spec fn wf(&self) -> bool {
        self.in_use() <= self.capacity()
    }

    /// A gate with `capacity` free slots.
    pub fn new(capacity: u32) -> (g: AdmissionGate)
        ensures
            g.wf(),
            g.capacity() == capacity,
            g.in_use() == 0,
    {
        AdmissionGate { capacity, in_use: 0 }
    }

    /// Hands out a permit exactly when a slot is free.
    pub fn try_acquire(&mut self) -> (r: Option<GatePermit>)
        requires
            old(self).wf(),
        ensures
            final(self).wf(),
            final(self).capacity() == old(self).capacity(),
            r is Some <==> old(self).in_use() < old(self).capacity(),
            r is Some ==> final(self).in_use() == old(self).in_use() + 1,
            r is None ==> final(self).in_use() == old(self).in_use(),
    {
        if self.in_use < self.capacity {
            self.in_use = self.in_use + 1;
            Some(GatePermit { _reserved: () })
        } else {
            None
        }
    }

    /// Returns a permit's slot to the pool.
    pub fn release(&mut self, permit: GatePermit)
        requires
            old(self).wf(),
            old(self).in_use() >= 1,
        ensures
            final(self).wf(),
            final(self).capacity() == old(self).capacity(),
            final(self).in_use() == old(self).in_use() - 1,
    {
        let GatePermit { _reserved: () } = permit;
        self.in_use = self.in_use - 1;
    }
}

} // verus!
