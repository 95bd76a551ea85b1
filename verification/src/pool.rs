//! The connection pool gateway, counted: a bounded broker of database
//! connections. Once all connections are checked out, further requests
//! must wait — that wait is the system's backpressure.

use vstd::prelude::*;

verus! {

/// Acquiring a connection slower than this many milliseconds is an early
/// sign of pool starvation and worth a warning; it is no failure.
pub const ACQUIRE_WARN_THRESHOLD_MS: u64 = 5;

/// Whether an acquisition that took `elapsed_ms` deserves the
/// slow-acquisition warning.
pub fn acquisition_warning(elapsed_ms: u64) -> (r: bool)
    ensures
        r == (elapsed_ms > ACQUIRE_WARN_THRESHOLD_MS),
{
    elapsed_ms > ACQUIRE_WARN_THRESHOLD_MS
}

/// The bounded pool, as its accounting sees it: how many connections
/// exist and how many are free right now.
pub struct PoolGateway {
    pub capacity: u64,
    pub available: u64,
}

impl PoolGateway {
    pub open spec fn wf(&self) -> bool {
        self.available <= self.capacity
    }

    /// A fresh pool with all `capacity` connections free.
    pub fn new(capacity: u64) -> (r: PoolGateway)
        ensures
            r.wf(),
            r.capacity == capacity,
            r.available == capacity,
    {
        PoolGateway { capacity, available: capacity }
    }

    /// Hands a connection out if one is free. `false` means the pool is
    /// exhausted: the caller must suspend until a release, or time out.
    pub fn try_acquire(&mut self) -> (granted: bool)
        requires
            old(self).wf(),
        ensures
            final(self).wf(),
            final(self).capacity == old(self).capacity,
            granted == (old(self).available > 0),
            granted ==> final(self).available == old(self).available - 1,
            !granted ==> final(self).available == old(self).available,
    {
        if self.available > 0 {
            self.available = self.available - 1;
            true
        } else {
            false
        }
    }

    /// Takes a connection back. Every checked-out connection comes back
    /// exactly once, so a free slot always exists for it.
    pub fn release(&mut self)
        requires
            old(self).wf(),
            old(self).available < old(self).capacity,
        ensures
            final(self).wf(),
            final(self).capacity == old(self).capacity,
            final(self).available == old(self).available + 1,
    {
        self.available = self.available + 1;
    }

    /// How many connections are checked out.
    pub fn in_use(&self) -> (r: u64)
        requires
            self.wf(),
        ensures
            r == self.capacity - self.available,
    {
        self.capacity - self.available
    }
}

} // verus!
