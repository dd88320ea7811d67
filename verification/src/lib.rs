//! A bulk message-purge engine for a chat platform.
//!
//! Given a channel's history (newest first) and an age cutoff, the engine
//! keeps the messages older than the cutoff, splits them into a band that the
//! platform can delete in batches and a band that must be deleted one at a
//! time, estimates how long deletion will take, models a time-boxed yes/no
//! confirmation prompt, and lays out a deletion schedule that respects the
//! platform's request budget by pausing once a rolling window's budget is
//! spent.  All decisions are made here; the surrounding process performs the
//! platform calls and sleeps.

use vstd::prelude::*;

pub mod confirm;
pub mod exec;
pub mod message;
pub mod meter;
pub mod plan;

verus! {

/// Number of seconds in the age cutoff for purging: only messages older than
/// seven days are considered at all.
pub const PURGE_BEFORE_SECS: i64 = 7 * 86400;

/// Age beyond which the platform no longer accepts batch deletion; messages
/// older than thirteen and a half days go to the slow band.
pub const BULK_CUTOFF_AGE_SECS: i64 = 13 * 86400 + 12 * 3600;

/// How failures are classified.
#[derive(Clone, Copy, Debug, PartialEq, Eq, Structural)]
pub enum PurgeError {
    /// A platform call failed (network, permission, transport-level limit).
    Transport,
    /// A safety invariant was violated before any destructive action.
    Precondition,
    /// A required secret or connection string was missing at startup.
    Configuration,
}

/// Computes the two cutoff instants for an invocation at time `now`: the age
/// cutoff below which messages are purged at all, and the bulk cutoff below
/// which they can no longer be batch-deleted.
pub fn purge_cutoffs(now: i64) -> (r: (i64, i64))
    requires
        i64::MIN + BULK_CUTOFF_AGE_SECS <= now,
    ensures
        r.0 == now - PURGE_BEFORE_SECS,
        r.1 == now - BULK_CUTOFF_AGE_SECS,
{
    (now - PURGE_BEFORE_SECS, now - BULK_CUTOFF_AGE_SECS)
}

} // verus!
