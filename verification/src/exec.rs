//! The throttled deletion schedule.
//!
//! A confirmed purge runs as a fixed sequence of actions: the bulk band is
//! deleted in batches of up to `BATCH_SIZE` messages (one batch being one
//! operation), then the slow band one message at a time, and after every
//! `meter_limit` operations the run pauses until the current rate window is
//! over.  The schedule is laid out here in full; the surrounding process
//! walks it, performing each deletion (or skipping it on a dry run, with the
//! pauses kept) and sleeping at each pause.

use vstd::prelude::*;
use vstd::arithmetic::div_mod::{
    lemma_basic_div, lemma_div_is_ordered, lemma_div_pos_is_pos, lemma_fundamental_div_mod,
    lemma_hoist_over_denominator, lemma_mod_bound,
};
use crate::plan::{PurgePlan, BATCH_SIZE};
use crate::PurgeError;

verus! {

/// Messages must be at least this old to be purged at all: a safety floor
/// against accidental mass deletion of recent history.
pub const SAFETY_FLOOR_SECS: i64 = 14 * 86400;

/// One step of a deletion run.
#[derive(Clone, Copy, Debug, PartialEq, Eq, Structural)]
pub enum Action {
    /// Batch-delete the bulk band's messages at indices `start..end`.
    DeleteBatch { start: usize, end: usize },
    /// Delete the slow band's message at `index`.
    DeleteOne { index: usize },
    /// The window's budget is spent: sleep until the window is over.
    Pause,
}

/// How many batch operations a bulk band of `bulk_len` messages needs.
pub open spec fn batch_count(bulk_len: int) -> int {
    (bulk_len + (BATCH_SIZE - 1)) / (BATCH_SIZE as int)
}

/// The total operation count of a run: one per batch, one per slow message.
pub open spec fn total_ops(bulk_len: int, slow_len: int) -> int {
    batch_count(bulk_len) + slow_len
}

/// The `i`-th operation of a run over a bulk band of `bulk_len` messages:
/// the batches in index order, then the single deletions in index order.
pub open spec fn op_at(bulk_len: int, i: int) -> Action {
    if i < batch_count(bulk_len) {
        Action::DeleteBatch {
            start: (i * (BATCH_SIZE as int)) as usize,
            end: (if i * (BATCH_SIZE as int) + (BATCH_SIZE as int) <= bulk_len {
                i * (BATCH_SIZE as int) + (BATCH_SIZE as int)
            } else {
                bulk_len
            }) as usize,
        }
    } else {
        Action::DeleteOne { index: (i - batch_count(bulk_len)) as usize }
    }
}

/// The schedule from operation `i` on, with `budget` operations left in the
/// current rate window: each operation in turn, with a pause wherever the
/// budget runs out.
pub open spec fn sched(n_ops: int, limit: int, bulk_len: int, i: int, budget: int) -> Seq<Action>
    decreases n_ops - i,
{
    if i < 0 || i >= n_ops || limit < 1 {
        Seq::empty()
    } else if budget <= 1 {
        seq![op_at(bulk_len, i), Action::Pause] + sched(n_ops, limit, bulk_len, i + 1, limit)
    } else {
        seq![op_at(bulk_len, i)] + sched(n_ops, limit, bulk_len, i + 1, budget - 1)
    }
}

/// The whole schedule of a run: all operations with a full first window.
pub open spec fn sched_full(bulk_len: int, slow_len: int, limit: int) -> Seq<Action> {
    sched(total_ops(bulk_len, slow_len), limit, bulk_len, 0, limit)
}

/// How many pauses a sequence of actions holds.
pub open spec fn count_pauses(s: Seq<Action>) -> int
    decreases s.len(),
{
    if s.len() == 0 {
        0
    } else {
        (if s[0] is Pause {
            1int
        } else {
            0int
        }) + count_pauses(s.skip(1))
    }
}

/// How many deletion operations (batch or single) a sequence of actions
/// holds.
pub open spec fn count_ops(s: Seq<Action>) -> int
    decreases s.len(),
{
    if s.len() == 0 {
        0
    } else {
        (if s[0] is Pause {
            0int
        } else {
            1int
        }) + count_ops(s.skip(1))
    }
}

/// Reading `s` left to right, no more than `budget` operations come before
/// the first pause and no more than `limit` between later pauses: the rate
/// budget is never exceeded within one window.
pub open spec fn window_bounded(s: Seq<Action>, budget: int, limit: int) -> bool
    decreases s.len(),
{
    if s.len() == 0 {
        true
    } else if s[0] is Pause {
        window_bounded(s.skip(1), limit, limit)
    } else {
        budget >= 1 && window_bounded(s.skip(1), budget - 1, limit)
    }
}

proof fn lemma_counts_cons(a: Action, t: Seq<Action>)
    ensures
        count_pauses(seq![a] + t) == (if a is Pause {
            1int
        } else {
            0int
        }) + count_pauses(t),
        count_ops(seq![a] + t) == (if a is Pause {
            0int
        } else {
            1int
        }) + count_ops(t),
{
    let s = seq![a] + t;
    assert(s[0] == a);
    assert(s.skip(1) =~= t);
}

proof fn lemma_wb_cons(a: Action, t: Seq<Action>, budget: int, limit: int)
    ensures
        window_bounded(seq![a] + t, budget, limit) == (if a is Pause {
            window_bounded(t, limit, limit)
        } else {
            budget >= 1 && window_bounded(t, budget - 1, limit)
        }),
{
    let s = seq![a] + t;
    assert(s[0] == a);
    assert(s.skip(1) =~= t);
}

/// The schedule from `i` on holds exactly the remaining operations, pauses
/// exactly once per spent window, and never exceeds the budget within a
/// window.
pub proof fn lemma_sched_counts(n_ops: int, limit: int, bulk_len: int, i: int, budget: int)
    requires
        0 <= i,
        1 <= budget <= limit,
    ensures
        count_ops(sched(n_ops, limit, bulk_len, i, budget)) == if n_ops - i >= 0 {
            n_ops - i
        } else {
            0
        },
        count_pauses(sched(n_ops, limit, bulk_len, i, budget)) == if n_ops - i >= budget {
            1 + (n_ops - i - budget) / limit
        } else {
            0
        },
        window_bounded(sched(n_ops, limit, bulk_len, i, budget), budget, limit),
    decreases n_ops - i,
{
    if i >= n_ops {
        // The schedule is empty and no window is started.
    } else if budget <= 1 {
        lemma_sched_counts(n_ops, limit, bulk_len, i + 1, limit);
        let tail = sched(n_ops, limit, bulk_len, i + 1, limit);
        let op = op_at(bulk_len, i);
        assert(seq![op, Action::Pause] + tail =~= seq![op] + (seq![Action::Pause] + tail));
        lemma_counts_cons(op, seq![Action::Pause] + tail);
        lemma_counts_cons(Action::Pause, tail);
        lemma_wb_cons(op, seq![Action::Pause] + tail, budget, limit);
        lemma_wb_cons(Action::Pause, tail, budget - 1, limit);
        let m = n_ops - i;
        if m - 1 >= limit {
            lemma_hoist_over_denominator(m - 1 - limit, 1, limit as nat);
        } else {
            lemma_basic_div(m - 1, limit);
        }
    } else {
        lemma_sched_counts(n_ops, limit, bulk_len, i + 1, budget - 1);
        let tail = sched(n_ops, limit, bulk_len, i + 1, budget - 1);
        let op = op_at(bulk_len, i);
        lemma_counts_cons(op, tail);
        lemma_wb_cons(op, tail, budget, limit);
    }
}

/// An operation index is a batch index exactly when it starts inside the
/// bulk band.
proof fn lemma_batch_index(bulk_len: int, i: int)
    requires
        bulk_len >= 0,
        i >= 0,
    ensures
        i < batch_count(bulk_len) <==> i * (BATCH_SIZE as int) < bulk_len,
{
    let b = BATCH_SIZE as int;
    lemma_fundamental_div_mod(bulk_len + (b - 1), b);
    lemma_mod_bound(bulk_len + (b - 1), b);
}

/// Lays out the full deletion schedule for a bulk band of `bulk_len`
/// messages and a slow band of `slow_len`, pausing after every `meter_limit`
/// operations: the batches in order, then the single deletions in order,
/// with exactly one pause per spent rate window and never more than
/// `meter_limit` operations within one window.
pub fn schedule(bulk_len: usize, slow_len: usize, meter_limit: usize) -> (r: Vec<Action>)
    requires
        meter_limit >= 1,
        bulk_len + slow_len <= usize::MAX - BATCH_SIZE,
    ensures
        r@ == sched_full(bulk_len as int, slow_len as int, meter_limit as int),
        count_ops(r@) == total_ops(bulk_len as int, slow_len as int),
        count_pauses(r@) == total_ops(bulk_len as int, slow_len as int) / (meter_limit as int),
        window_bounded(r@, meter_limit as int, meter_limit as int),
{
    let n_batches: usize = if bulk_len == 0 {
        0
    } else {
        (bulk_len - 1) / BATCH_SIZE + 1
    };
    proof {
        if bulk_len == 0 {
            lemma_basic_div((BATCH_SIZE - 1) as int, BATCH_SIZE as int);
        } else {
            lemma_hoist_over_denominator((bulk_len - 1) as int, 1, BATCH_SIZE as nat);
        }
        assert(n_batches == batch_count(bulk_len as int));
        if bulk_len > 0 {
            lemma_div_is_ordered((bulk_len - 1) as int, bulk_len as int, BATCH_SIZE as int);
            lemma_div_pos_is_pos((bulk_len - 1) as int, BATCH_SIZE as int);
            assert((bulk_len as int) / (BATCH_SIZE as int) <= bulk_len as int);
            assert(n_batches <= bulk_len);
        }
    }
    let n_ops: usize = n_batches + slow_len;
    let ghost gn = total_ops(bulk_len as int, slow_len as int);
    let ghost gl = meter_limit as int;
    let ghost gb = bulk_len as int;
    let mut r: Vec<Action> = Vec::new();
    let mut i: usize = 0;
    let mut budget: usize = meter_limit;
    let mut start: usize = 0;
    while i < n_ops
        invariant
            0 <= i <= n_ops,
            gn == n_ops,
            gl == meter_limit as int,
            gb == bulk_len as int,
            meter_limit >= 1,
            bulk_len + slow_len <= usize::MAX - BATCH_SIZE,
            n_batches == batch_count(gb),
            n_batches <= bulk_len || bulk_len == 0,
            n_ops == total_ops(gb, slow_len as int),
            1 <= budget <= meter_limit,
            i < n_batches ==> start == i * (BATCH_SIZE as int),
            r@ + sched(gn, gl, gb, i as int, budget as int) == sched(gn, gl, gb, 0, gl),
        decreases n_ops - i,
    {
        let ghost old_r = r@;
        let ghost old_budget = budget as int;
        let act = if i < n_batches {
            proof {
                lemma_batch_index(gb, i as int);
            }
            let end: usize = if bulk_len - start >= BATCH_SIZE {
                start + BATCH_SIZE
            } else {
                bulk_len
            };
            let a = Action::DeleteBatch { start, end };
            proof {
                if i + 1 < n_batches {
                    lemma_batch_index(gb, i as int + 1);
                }
            }
            start = end;
            a
        } else {
            Action::DeleteOne { index: i - n_batches }
        };
        proof {
            assert(act == op_at(gb, i as int));
        }
        r.push(act);
        if budget <= 1 {
            r.push(Action::Pause);
            budget = meter_limit;
        } else {
            budget = budget - 1;
        }
        i = i + 1;
        proof {
            let tail = sched(gn, gl, gb, i as int, budget as int);
            if old_budget <= 1 {
                assert(sched(gn, gl, gb, i - 1, old_budget) =~= seq![
                    op_at(gb, i - 1),
                    Action::Pause,
                ] + tail);
                assert(r@ =~= old_r + seq![op_at(gb, i - 1), Action::Pause]);
            } else {
                assert(sched(gn, gl, gb, i - 1, old_budget) =~= seq![op_at(gb, i - 1)] + tail);
                assert(r@ =~= old_r + seq![op_at(gb, i - 1)]);
            }
            assert(r@ + tail =~= old_r + sched(gn, gl, gb, i - 1, old_budget));
        }
    }
    proof {
        assert(sched(gn, gl, gb, i as int, budget as int) =~= Seq::<Action>::empty());
        assert(r@ =~= r@ + Seq::<Action>::empty());
        assert(r@ == sched_full(gb, slow_len as int, gl));
        lemma_sched_counts(gn, gl, gb, 0, gl);
        if gn >= gl {
            lemma_hoist_over_denominator(gn - gl, 1, gl as nat);
        } else {
            lemma_div_pos_is_pos(gn, gl);
            lemma_basic_div(gn, gl);
        }
    }
    r
}

/// The timestamp of the oldest message a plan would process, if it would
/// process any: the bands are newest first, so it is the last message of the
/// slow band, or of the bulk band when nothing is slow.
pub open spec fn plan_oldest_timestamp(p: PurgePlan) -> Option<int> {
    if p.slow_band@.len() > 0 {
        Some(p.slow_band@.last().timestamp as int)
    } else if p.bulk_band@.len() > 0 {
        Some(p.bulk_band@.last().timestamp as int)
    } else {
        None
    }
}

/// Checks the safety floor before any destructive action: every message a
/// plan processes, in particular the oldest, must be at least
/// `SAFETY_FLOOR_SECS` old at time `now`.  An empty plan passes.
pub fn check_safety_floor(plan: &PurgePlan, now: i64) -> (r: Result<(), PurgeError>)
    requires
        i64::MIN + SAFETY_FLOOR_SECS <= now,
    ensures
        r is Ok <==> (plan_oldest_timestamp(*plan) is None || plan_oldest_timestamp(
            *plan,
        ).unwrap() <= now - SAFETY_FLOOR_SECS),
        r is Err ==> r == Err::<(), PurgeError>(PurgeError::Precondition),
{
    let floor: i64 = now - SAFETY_FLOOR_SECS;
    let slow_len: usize = plan.slow_band.len();
    let bulk_len: usize = plan.bulk_band.len();
    if slow_len > 0 {
        if plan.slow_band[slow_len - 1].timestamp <= floor {
            Ok(())
        } else {
            Err(PurgeError::Precondition)
        }
    } else if bulk_len > 0 {
        if plan.bulk_band[bulk_len - 1].timestamp <= floor {
            Ok(())
        } else {
            Err(PurgeError::Precondition)
        }
    } else {
        Ok(())
    }
}

/// Prepares a confirmed purge for execution: enforces the safety floor, then
/// lays out the throttled schedule for the plan's two bands.  Fails fast
/// with `PurgeError::Precondition`, before any destructive action, when the
/// floor is violated.  The schedule is the same whether or not the run will
/// be dry: a dry run walks it without issuing the deletions.
pub fn prepare_run(plan: &PurgePlan, now: i64, meter_limit: usize) -> (r: Result<
    Vec<Action>,
    PurgeError,
>)
    requires
        meter_limit >= 1,
        i64::MIN + SAFETY_FLOOR_SECS <= now,
        plan.bulk_band@.len() + plan.slow_band@.len() <= usize::MAX - BATCH_SIZE,
    ensures
        r is Ok <==> (plan_oldest_timestamp(*plan) is None || plan_oldest_timestamp(
            *plan,
        ).unwrap() <= now - SAFETY_FLOOR_SECS),
        r is Ok ==> r.unwrap()@ == sched_full(
            plan.bulk_band@.len() as int,
            plan.slow_band@.len() as int,
            meter_limit as int,
        ),
        r is Err ==> r == Err::<Vec<Action>, PurgeError>(PurgeError::Precondition),
{
    match check_safety_floor(plan, now) {
        Ok(()) => Ok(schedule(plan.bulk_band.len(), plan.slow_band.len(), meter_limit)),
        Err(e) => Err(e),
    }
}

/// The throttle's pacing floor: a run of `n_ops` operations pauses for a
/// full rate window exactly once per `limit` operations spent, which is
/// never fewer than `(n_ops - 1) / limit` times.
pub proof fn law_throttle_pacing(bulk_len: int, slow_len: int, limit: int)
    requires
        bulk_len >= 0,
        slow_len >= 0,
        limit >= 1,
    ensures
        count_pauses(sched_full(bulk_len, slow_len, limit)) == total_ops(bulk_len, slow_len)
            / limit,
        count_pauses(sched_full(bulk_len, slow_len, limit)) >= (total_ops(bulk_len, slow_len)
            - 1) / limit,
        window_bounded(sched_full(bulk_len, slow_len, limit), limit, limit),
{
    lemma_sched_counts(total_ops(bulk_len, slow_len), limit, bulk_len, 0, limit);
    let n = total_ops(bulk_len, slow_len);
    assert(n >= 0) by {
        lemma_div_pos_is_pos(bulk_len + (BATCH_SIZE - 1), BATCH_SIZE as int);
    }
    if n >= limit {
        lemma_hoist_over_denominator(n - limit, 1, limit as nat);
        lemma_div_is_ordered(n - 1, n, limit);
    } else {
        lemma_basic_div(n, limit);
        if n >= 1 {
            lemma_basic_div(n - 1, limit);
        } else {
            lemma_basic_div(0, limit);
            assert((n - 1) / limit <= 0) by {
                lemma_div_is_ordered(n - 1, 0, limit);
            }
        }
    }
}

} // verus!
