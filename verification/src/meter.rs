//! The rolling-window rate meter.
//!
//! One meter is owned by one executor run.  Every consumed operation is
//! recorded; once the configured budget for the current window is spent, the
//! run must pause until the window that started at `window_start` is over,
//! and only then resume with a fresh window.  The meter's well-formedness is
//! exactly the throttle invariant: the operations recorded since
//! `window_start` never exceed the limit.

use vstd::prelude::*;

verus! {

/// Length of the rolling request-budget window, in seconds.
pub const WINDOW_SECS: i64 = 60;

/// A rolling-window operation counter.
pub struct RateMeter {
    /// The budget: operations allowed per window.
    pub limit: usize,
    /// Operations recorded since the current window started.
    pub count: usize,
    /// When the current window started, in seconds.
    pub window_start: i64,
}

impl RateMeter {
    /// The throttle invariant: the budget is positive and is never exceeded
    /// within the current window.
    pub open spec fn wf(self) -> bool {
        1 <= self.limit && self.count <= self.limit
    }

    /// A fresh meter whose first window starts at `now`.
    pub fn new(limit: usize, now: i64) -> (m: RateMeter)
        requires
            limit >= 1,
        ensures
            m.wf(),
            m.limit == limit,
            m.count == 0,
            m.window_start == now,
    {
        RateMeter { limit, count: 0, window_start: now }
    }

    /// Records one consumed operation.  Returns whether the window's budget
    /// is now spent, in which case the run must pause (see `pause_target`)
    /// and `resume` before recording anything more.
    pub fn record(&mut self) -> (pause: bool)
        requires
            old(self).wf(),
            old(self).count < old(self).limit,
        ensures
            final(self).wf(),
            final(self).limit == old(self).limit,
            final(self).window_start == old(self).window_start,
            final(self).count == old(self).count + 1,
            pause == (final(self).count == final(self).limit),
    {
        self.count = self.count + 1;
        self.count == self.limit
    }

    /// The instant until which a spent window must pause: the remainder of
    /// the window measured from when it started.
    pub fn pause_target(&self) -> (t: i64)
        requires
            self.window_start + WINDOW_SECS <= i64::MAX,
        ensures
            t == self.window_start + WINDOW_SECS,
    {
        self.window_start + WINDOW_SECS
    }

    /// Starts a fresh window at `now` with the full budget again.
    pub fn resume(&mut self, now: i64)
        requires
            old(self).wf(),
        ensures
            final(self).wf(),
            final(self).limit == old(self).limit,
            final(self).count == 0,
            final(self).window_start == now,
    {
        self.count = 0;
        self.window_start = now;
    }
}

} // verus!
