//! The periodic maintenance sweep: a process-lifetime loop, independent
//! of any request, that collects expired sessions. The decisions live
//! here; the loop around them — run the delete, log, sleep — belongs to
//! the driver.

use vstd::prelude::*;

verus! {

/// Seconds between sweeps. Expiry is still checked on every lookup, so
/// the period is about hygiene, not correctness.
pub const SWEEP_PERIOD_SECS: u64 = 3600;

/// What one sweep's outcome means for the log.
pub enum SweepReport {
    /// The delete failed: log an error.
    SweepFailed,
    /// Nothing was outdated: log at debug.
    NothingDeleted,
    /// This many sessions were outdated and removed: log at info.
    Deleted(u64),
}

/// Classifies the outcome of one sweep for the log; `None` stands for a
/// failed delete.
pub fn classify_sweep(deleted: &Option<u64>) -> (r: SweepReport)
    ensures
        deleted is None <==> r is SweepFailed,
        *deleted matches Some(n) ==> (n == 0 <==> r is NothingDeleted) && (n > 0 ==> r
            == SweepReport::Deleted(n)),
{
    match deleted {
        None => SweepReport::SweepFailed,
        Some(n) => {
            if *n == 0 {
                SweepReport::NothingDeleted
            } else {
                SweepReport::Deleted(*n)
            }
        },
    }
}

} // verus!
