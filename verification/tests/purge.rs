use purge_engine::exec::{check_safety_floor, prepare_run, schedule, Action, SAFETY_FLOOR_SECS};
use purge_engine::message::{window_before, Message};
use purge_engine::plan::{classify, prompt_summary, PurgePlan, BATCH_SIZE, METER_LIMIT};
use purge_engine::{purge_cutoffs, PurgeError, BULK_CUTOFF_AGE_SECS, PURGE_BEFORE_SECS};

fn msg(id: u64, timestamp: i64) -> Message {
    Message { id, timestamp }
}

/// A strictly newest-first history of `n` messages, the newest at `newest_ts`,
/// one second apart, with ids counting up from 1.
fn history(n: u64, newest_ts: i64) -> Vec<Message> {
    (0..n).map(|k| msg(k + 1, newest_ts - k as i64)).collect()
}

#[test]
fn cutoffs_are_seven_and_thirteen_and_a_half_days() {
    assert_eq!(PURGE_BEFORE_SECS, 604800);
    assert_eq!(BULK_CUTOFF_AGE_SECS, 1166400);
    let now = 10_000_000;
    let (before, bulk_cutoff) = purge_cutoffs(now);
    assert_eq!(before, now - 604800);
    assert_eq!(bulk_cutoff, now - 1166400);
}

#[test]
fn window_skips_messages_at_or_after_cutoff() {
    let h = vec![msg(1, 100), msg(2, 90), msg(3, 85), msg(4, 80), msg(5, 70)];
    let w = window_before(&h, 85);
    assert_eq!(w.before, 85);
    assert_eq!(w.messages, vec![msg(4, 80), msg(5, 70)]);
}

#[test]
fn window_keeps_everything_older() {
    let h = vec![msg(1, 50), msg(2, 40)];
    let w = window_before(&h, 60);
    assert_eq!(w.messages.len(), 2);
}

#[test]
fn window_of_recent_history_is_empty() {
    let h = vec![msg(1, 100), msg(2, 99)];
    let w = window_before(&h, 50);
    assert!(w.is_empty());
    assert_eq!(w.len(), 0);
}

#[test]
fn empty_window_gives_empty_plan_and_zero_estimates() {
    let w = window_before(&Vec::new(), 1000);
    assert!(w.is_empty());
    let p = classify(&w, 500, METER_LIMIT);
    assert!(p.bulk_band.is_empty());
    assert!(p.slow_band.is_empty());
    assert_eq!(p.estimated_minutes_bulk, 0);
    assert_eq!(p.estimated_minutes_slow, 0);
    let s = prompt_summary(&p);
    assert_eq!(s.total_count, 0);
    assert_eq!(s.bulk_bounds, None);
    assert_eq!(s.slow_bounds, None);
    assert_eq!(s.total_minutes, 0);
}

#[test]
fn fifty_recent_messages_all_land_in_the_bulk_band() {
    // Fifty messages, all newer than the bulk cutoff.
    let h = history(50, 2000);
    let w = window_before(&h, 3000);
    let p = classify(&w, 1000, 500);
    assert_eq!(p.bulk_band.len(), 50);
    assert!(p.slow_band.is_empty());
    // 50 messages at 500 * 100 per minute: 0.001 minutes, under a hundredth.
    assert_eq!(p.estimated_minutes_bulk, 0);
    assert_eq!(p.estimated_minutes_slow, 0);
}

#[test]
fn six_hundred_old_messages_all_land_in_the_slow_band() {
    // Six hundred messages, all older than the bulk cutoff.
    let h = history(600, 500);
    let w = window_before(&h, 1000);
    let p = classify(&w, 900, 500);
    assert!(p.bulk_band.is_empty());
    assert_eq!(p.slow_band.len(), 600);
    // 600 messages at 500 per minute: 1.20 minutes.
    assert_eq!(p.estimated_minutes_slow, 120);
    assert_eq!(p.estimated_minutes_bulk, 0);
}

#[test]
fn classification_splits_at_the_first_older_message() {
    let h = vec![msg(1, 100), msg(2, 90), msg(3, 80), msg(4, 70)];
    let w = window_before(&h, 200);
    let p = classify(&w, 85, METER_LIMIT);
    assert_eq!(p.bulk_band, vec![msg(1, 100), msg(2, 90)]);
    assert_eq!(p.slow_band, vec![msg(3, 80), msg(4, 70)]);
}

#[test]
fn reclassifying_gives_an_identical_plan() {
    let h = history(120, 5000);
    let w = window_before(&h, 6000);
    let p1 = classify(&w, 4950, 500);
    let p2 = classify(&w, 4950, 500);
    assert_eq!(p1.bulk_band, p2.bulk_band);
    assert_eq!(p1.slow_band, p2.slow_band);
    assert_eq!(p1.estimated_minutes_bulk, p2.estimated_minutes_bulk);
    assert_eq!(p1.estimated_minutes_slow, p2.estimated_minutes_slow);
}

#[test]
fn estimates_scale_linearly_with_band_size() {
    // One full meter's worth of slow messages costs one minute; twice as
    // many cost two.
    let h1 = history(500, 1000);
    let h2 = history(1000, 1000);
    let p1 = classify(&window_before(&h1, 2000), 1500, 500);
    let p2 = classify(&window_before(&h2, 2000), 1500, 500);
    assert_eq!(p1.estimated_minutes_slow, 100);
    assert_eq!(p2.estimated_minutes_slow, 200);
}

#[test]
fn summary_reports_counts_bounds_and_total_estimate() {
    let h = vec![msg(10, 100), msg(11, 90), msg(12, 80), msg(13, 70), msg(14, 60)];
    let w = window_before(&h, 200);
    let p = classify(&w, 75, 500);
    let s = prompt_summary(&p);
    assert_eq!(s.total_count, 5);
    assert_eq!(s.bulk_count, 3);
    assert_eq!(s.slow_count, 2);
    // Bounds are (oldest, newest) of each band.
    assert_eq!(s.bulk_bounds, Some((12, 10)));
    assert_eq!(s.slow_bounds, Some((14, 13)));
    assert_eq!(s.total_minutes, p.estimated_minutes_bulk + p.estimated_minutes_slow);
}

#[test]
fn schedule_batches_then_singles() {
    let acts = schedule(250, 3, 500);
    assert_eq!(
        acts,
        vec![
            Action::DeleteBatch { start: 0, end: 100 },
            Action::DeleteBatch { start: 100, end: 200 },
            Action::DeleteBatch { start: 200, end: 250 },
            Action::DeleteOne { index: 0 },
            Action::DeleteOne { index: 1 },
            Action::DeleteOne { index: 2 },
        ]
    );
}

#[test]
fn schedule_pauses_once_the_budget_is_spent() {
    // 600 slow deletions at a budget of 500: 500 operations, one pause for
    // the rest of the window, then the remaining 100.
    let acts = schedule(0, 600, 500);
    assert_eq!(acts.len(), 601);
    for i in 0..500 {
        assert_eq!(acts[i], Action::DeleteOne { index: i });
    }
    assert_eq!(acts[500], Action::Pause);
    for i in 501..601 {
        assert_eq!(acts[i], Action::DeleteOne { index: i - 1 });
    }
}

#[test]
fn schedule_pauses_even_after_the_final_operation() {
    let acts = schedule(0, 500, 500);
    assert_eq!(acts.len(), 501);
    assert_eq!(acts[500], Action::Pause);
}

#[test]
fn schedule_of_a_mixed_run_paces_proportionally() {
    // A thousand messages, 300 bulk and 700 slow, at a budget of 100
    // operations per window: 3 batches + 700 singles = 703 operations,
    // so exactly 7 pauses, dry run or not.
    let acts = schedule(300, 700, 100);
    let pauses = acts.iter().filter(|a| matches!(a, Action::Pause)).count();
    let ops = acts.len() - pauses;
    assert_eq!(ops, 703);
    assert_eq!(pauses, 7);
}

#[test]
fn batch_size_and_meter_limit_defaults() {
    assert_eq!(BATCH_SIZE, 100);
    assert_eq!(METER_LIMIT, 500);
}

#[test]
fn safety_floor_rejects_a_plan_with_recent_messages() {
    let now = 100 * 86400;
    // Oldest message only one day old: the floor is violated.
    let h = history(10, now - 86400);
    let w = window_before(&h, now);
    let p = classify(&w, now - BULK_CUTOFF_AGE_SECS, 500);
    assert_eq!(check_safety_floor(&p, now), Err(PurgeError::Precondition));
    assert_eq!(prepare_run(&p, now, 500), Err(PurgeError::Precondition));
}

#[test]
fn safety_floor_accepts_old_messages_and_empty_plans() {
    let now = 100 * 86400;
    let h = history(10, now - SAFETY_FLOOR_SECS - 10);
    let w = window_before(&h, now);
    let p = classify(&w, now - BULK_CUTOFF_AGE_SECS, 500);
    assert_eq!(check_safety_floor(&p, now), Ok(()));
    let acts = prepare_run(&p, now, 500).unwrap();
    assert_eq!(acts.len(), 10);

    let empty = PurgePlan {
        bulk_band: Vec::new(),
        slow_band: Vec::new(),
        estimated_minutes_bulk: 0,
        estimated_minutes_slow: 0,
    };
    assert_eq!(check_safety_floor(&empty, now), Ok(()));
    assert_eq!(prepare_run(&empty, now, 500), Ok(Vec::new()));
}

#[test]
fn error_kinds_are_distinct() {
    assert_ne!(PurgeError::Transport, PurgeError::Precondition);
    assert_ne!(PurgeError::Transport, PurgeError::Configuration);
    assert_ne!(PurgeError::Precondition, PurgeError::Configuration);
}
