//! The admission gate: a counting permit pool that bounds how many tasks
//! execute at once.
//!
//! The pool is sized at construction to the concurrency policy's limit. A
//! task must acquire one permit before performing its work and must release
//! it when the work completes, successfully or not. The well-formedness
//! invariant makes the admission bound explicit: the number of tasks holding
//! a permit never exceeds the capacity.

use vstd::prelude::*;

verus! {

/// A counting permit pool with a fixed capacity.
#[derive(Clone, Copy, Debug)]
pub struct AdmissionGate {
    capacity: usize,
    available: usize,
}

impl AdmissionGate {
    /// The fixed permit capacity of the pool.
    pub closed spec fn capacity_spec(&self) -> usize {
        self.capacity
    }

    /// The number of permits not currently held.
    pub closed spec fn available_spec(&self) -> usize {
        self.available
    }

    /// The number of tasks currently holding a permit.
    pub open spec fn in_flight(&self) -> int {
        self.capacity_spec() - self.available_spec()
    }

    /// Permits outstanding never outnumber the capacity.
    pub open spec fn wf(&self) -> bool {
        self.available_spec() <= self.capacity_spec()
    }

    /// A gate with `capacity` permits, all available.
    pub fn new(capacity: usize) -> (g: Self)
        ensures
            g.wf(),
            g.capacity_spec() == capacity,
            g.available_spec() == capacity,
            g.in_flight() == 0,
    {
        AdmissionGate { capacity, available: capacity }
    }

    /// The number of tasks currently holding a permit.
    pub fn in_flight_count(&self) -> (n: usize)
        requires
            self.wf(),
        ensures
            n == self.in_flight(),
    {
        self.capacity - self.available
    }

    /// Takes one permit if any is available. Succeeds exactly when fewer
    /// than `capacity` tasks are in flight.
    pub fn try_acquire(&mut self) -> (admitted: bool)
        requires
            old(self).wf(),
        ensures
            final(self).wf(),
            final(self).capacity_spec() == old(self).capacity_spec(),
            admitted <==> old(self).in_flight() < old(self).capacity_spec(),
            admitted ==> final(self).in_flight() == old(self).in_flight() + 1,
            !admitted ==> *final(self) == *old(self),
    {
        if self.available > 0 {
            self.available = self.available - 1;
            true
        } else {
            false
        }
    }

    /// Returns one permit to the pool.
    pub fn release(&mut self)
        requires
            old(self).wf(),
            old(self).in_flight() > 0,
        ensures
            final(self).wf(),
            final(self).capacity_spec() == old(self).capacity_spec(),
            final(self).available_spec() == old(self).available_spec() + 1,
            final(self).in_flight() == old(self).in_flight() - 1,
    {
        self.available = self.available + 1;
    }

    /// The admission bound: however acquisitions and releases interleave, a
    /// well-formed gate never has more than `capacity` tasks in flight.
    pub proof fn lemma_admission_bound(&self)
        requires
            self.wf(),
        ensures
            0 <= self.in_flight() <= self.capacity_spec(),
    {
    }
}

} // verus!
