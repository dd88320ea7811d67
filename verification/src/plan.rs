//! Band classification and duration estimation.
//!
//! A window is split at the first message older than the bulk cutoff: the
//! prefix can be batch-deleted, the suffix must go one message at a time.
//! Each band gets a duration estimate from the configured deletion
//! throughput.

use vstd::prelude::*;
use crate::message::{first_index_older, lemma_first_index_older_bounds, MessageWindow};
use crate::message::Message;

verus! {

/// The default deletion throughput: operations per rolling minute.
pub const METER_LIMIT: usize = 500;

/// How many messages one batch-delete operation can cover.
pub const BATCH_SIZE: usize = 100;

/// The estimated time to delete `count` messages at `per_minute` messages per
/// minute, in hundredths of a minute, rounded down.
pub open spec fn minutes_hundredths(count: int, per_minute: int) -> int {
    count * 100 / per_minute
}

/// The deletion plan for one invocation: the two bands, in the window's own
/// newest-first order, and their duration estimates.
pub struct PurgePlan {
    /// Messages young enough for batch deletion, newest first.
    pub bulk_band: Vec<Message>,
    /// Messages that must be deleted one at a time, newest first.
    pub slow_band: Vec<Message>,
    /// Estimated minutes to clear the bulk band, in hundredths of a minute.
    pub estimated_minutes_bulk: u128,
    /// Estimated minutes to clear the slow band, in hundredths of a minute.
    pub estimated_minutes_slow: u128,
}

/// What `classify` promises of its result: both bands and both estimates are
/// pinned by the window, the cutoff and the meter limit alone.
pub open spec fn classify_post(
    window: MessageWindow,
    bulk_cutoff: int,
    meter_limit: int,
    p: PurgePlan,
) -> bool {
    let s = window.messages@;
    let k = first_index_older(s, bulk_cutoff);
    &&& p.bulk_band@ == s.subrange(0, k)
    &&& p.slow_band@ == s.subrange(k, s.len() as int)
    &&& p.estimated_minutes_bulk == minutes_hundredths(k, meter_limit * BATCH_SIZE as int)
    &&& p.estimated_minutes_slow == minutes_hundredths(s.len() - k, meter_limit)
}

/// Splits a window into its bulk and slow bands at `bulk_cutoff` and
/// estimates each band's deletion time at `meter_limit` operations per
/// minute (one bulk operation covering `BATCH_SIZE` messages).
pub fn classify(window: &MessageWindow, bulk_cutoff: i64, meter_limit: usize) -> (p: PurgePlan)
    requires
        meter_limit >= 1,
    ensures
        classify_post(*window, bulk_cutoff as int, meter_limit as int, p),
{
    let msgs = &window.messages;
    let n = msgs.len();
    let mut k: usize = 0;
    while k < n && msgs[k].timestamp >= bulk_cutoff
        invariant
            0 <= k <= n,
            n == msgs@.len(),
            forall|j: int| 0 <= j < k ==> msgs@[j].timestamp >= bulk_cutoff as int,
        decreases n - k,
    {
        k = k + 1;
    }
    proof {
        lemma_first_index_older_bounds(msgs@, bulk_cutoff as int);
        let fi = first_index_older(msgs@, bulk_cutoff as int);
        if fi < k {
            assert(msgs@[fi].timestamp >= bulk_cutoff as int);
        }
        if k < fi {
            assert(msgs@[k as int].timestamp < bulk_cutoff as int);
        }
        assert(k == fi);
    }
    let mut bulk_band: Vec<Message> = Vec::new();
    let mut i: usize = 0;
    while i < k
        invariant
            0 <= i <= k <= n,
            n == msgs@.len(),
            bulk_band@ == msgs@.subrange(0, i as int),
        decreases k - i,
    {
        bulk_band.push(msgs[i]);
        i = i + 1;
        proof {
            assert(bulk_band@ =~= msgs@.subrange(0, i as int));
        }
    }
    let mut slow_band: Vec<Message> = Vec::new();
    let mut j: usize = k;
    while j < n
        invariant
            k <= j <= n,
            n == msgs@.len(),
            slow_band@ == msgs@.subrange(k as int, j as int),
        decreases n - j,
    {
        slow_band.push(msgs[j]);
        j = j + 1;
        proof {
            assert(slow_band@ =~= msgs@.subrange(k as int, j as int));
        }
    }
    let bulk_per_minute: u128 = (meter_limit as u128) * (BATCH_SIZE as u128);
    let estimated_minutes_bulk: u128 = (k as u128) * 100 / bulk_per_minute;
    let estimated_minutes_slow: u128 = ((n - k) as u128) * 100 / (meter_limit as u128);
    PurgePlan { bulk_band, slow_band, estimated_minutes_bulk, estimated_minutes_slow }
}

/// What the confirmation prompt shows the invoking user: the counts, the
/// boundary locators of each band, and the combined duration estimate.  The
/// surrounding process renders it as the prompt's text.
pub struct PromptSummary {
    /// How many messages the whole purge covers.
    pub total_count: usize,
    /// How many messages the bulk band holds.
    pub bulk_count: usize,
    /// How many messages the slow band holds.
    pub slow_count: usize,
    /// Locators of the bulk band's boundary messages, oldest then newest,
    /// when the band is not empty.
    pub bulk_bounds: Option<(u64, u64)>,
    /// Locators of the slow band's boundary messages, oldest then newest,
    /// when the band is not empty.
    pub slow_bounds: Option<(u64, u64)>,
    /// Estimated minutes for the whole purge, in hundredths of a minute.
    pub total_minutes: u128,
}

/// Builds the confirmation prompt's data from a plan.
pub fn prompt_summary(p: &PurgePlan) -> (s: PromptSummary)
    requires
        p.bulk_band@.len() + p.slow_band@.len() <= usize::MAX,
        p.estimated_minutes_bulk + p.estimated_minutes_slow <= u128::MAX,
    ensures
        s.bulk_count == p.bulk_band@.len(),
        s.slow_count == p.slow_band@.len(),
        s.total_count == p.bulk_band@.len() + p.slow_band@.len(),
        s.bulk_bounds == (if p.bulk_band@.len() > 0 {
            Some((p.bulk_band@.last().id, p.bulk_band@[0].id))
        } else {
            None::<(u64, u64)>
        }),
        s.slow_bounds == (if p.slow_band@.len() > 0 {
            Some((p.slow_band@.last().id, p.slow_band@[0].id))
        } else {
            None::<(u64, u64)>
        }),
        s.total_minutes == p.estimated_minutes_bulk + p.estimated_minutes_slow,
{
    let bulk_count: usize = p.bulk_band.len();
    let slow_count: usize = p.slow_band.len();
    let bulk_bounds = if bulk_count > 0 {
        Some((p.bulk_band[bulk_count - 1].id, p.bulk_band[0].id))
    } else {
        None
    };
    let slow_bounds = if slow_count > 0 {
        Some((p.slow_band[slow_count - 1].id, p.slow_band[0].id))
    } else {
        None
    };
    PromptSummary {
        total_count: bulk_count + slow_count,
        bulk_count,
        slow_count,
        bulk_bounds,
        slow_bounds,
        total_minutes: p.estimated_minutes_bulk + p.estimated_minutes_slow,
    }
}

/// The bands partition the window: laid end to end they reconstruct it
/// exactly, with no gap and no overlap, so their lengths add up to the
/// window's.
pub proof fn law_bands_partition(
    window: MessageWindow,
    bulk_cutoff: int,
    meter_limit: int,
    p: PurgePlan,
)
    requires
        classify_post(window, bulk_cutoff, meter_limit, p),
    ensures
        p.bulk_band@ + p.slow_band@ == window.messages@,
        p.bulk_band@.len() + p.slow_band@.len() == window.messages@.len(),
{
    lemma_first_index_older_bounds(window.messages@, bulk_cutoff);
    assert(p.bulk_band@ + p.slow_band@ =~= window.messages@);
}

/// Classification is deterministic, so re-classifying the same window with
/// the same cutoff and the same meter limit yields an identical plan.
pub proof fn law_classify_idempotent(
    window: MessageWindow,
    bulk_cutoff: int,
    meter_limit: int,
    p1: PurgePlan,
    p2: PurgePlan,
)
    requires
        classify_post(window, bulk_cutoff, meter_limit, p1),
        classify_post(window, bulk_cutoff, meter_limit, p2),
    ensures
        p1.bulk_band@ == p2.bulk_band@,
        p1.slow_band@ == p2.slow_band@,
        p1.estimated_minutes_bulk == p2.estimated_minutes_bulk,
        p1.estimated_minutes_slow == p2.estimated_minutes_slow,
{
}

/// Duration estimates are never negative.
pub proof fn law_estimate_nonneg(count: int, per_minute: int)
    requires
        count >= 0,
        per_minute >= 1,
    ensures
        minutes_hundredths(count, per_minute) >= 0,
{
    vstd::arithmetic::div_mod::lemma_div_pos_is_pos(count * 100, per_minute);
}

/// At a fixed rate the estimate grows with the band and does so linearly:
/// every additional `per_minute` messages cost exactly one more minute.
pub proof fn law_estimate_linear(count: int, extra: int, per_minute: int)
    requires
        count >= 0,
        extra >= 0,
        per_minute >= 1,
    ensures
        minutes_hundredths(count, per_minute) <= minutes_hundredths(count + extra, per_minute),
        minutes_hundredths(count + extra * per_minute, per_minute)
            == minutes_hundredths(count, per_minute) + extra * 100,
{
    vstd::arithmetic::div_mod::lemma_div_is_ordered(count * 100, (count + extra) * 100, per_minute);
    vstd::arithmetic::div_mod::lemma_hoist_over_denominator(
        count * 100,
        extra * 100,
        per_minute as nat,
    );
    assert((count + extra * per_minute) * 100 == count * 100 + (extra * 100) * per_minute)
        by (nonlinear_arith);
}

} // verus!
