//! The queue state machine: idempotent enqueue, the two-phase claim, the
//! retry/backoff policy, stale reclamation and the active/history split.

use lyricvault::job::Job;
use lyricvault::status::JobStatus;
use lyricvault::store::{backoff_seconds, JobStore, HISTORY_LIMIT};

fn enqueue_simple(store: &mut JobStore, key: &str, now: i64) -> i64 {
    let r = store.enqueue(
        "ingest_audio".to_string(),
        key.to_string(),
        Some("{}".to_string()),
        Some(format!("job-{key}")),
        false,
        now,
    );
    r.id
}

#[test]
fn idempotent_enqueue_returns_same_row() {
    let mut store = JobStore::new();
    let first = store.enqueue(
        "ingest_audio".to_string(),
        "k-1".to_string(),
        None,
        None,
        false,
        10,
    );
    let second = store.enqueue(
        "ingest_audio".to_string(),
        "k-1".to_string(),
        Some("other".to_string()),
        Some("other title".to_string()),
        false,
        20,
    );
    assert_eq!(first.id, second.id);
    assert_eq!(second.status, JobStatus::Pending);
    assert_eq!(store.len(), 1);
    // The dedup did not touch the row.
    let row = store.job_get(first.id).expect("row");
    assert_eq!(row.updated_at, 10);
    assert_eq!(row.payload, None);
}

#[test]
fn enqueue_distinct_keys_assigns_fresh_ids() {
    let mut store = JobStore::new();
    let a = enqueue_simple(&mut store, "k-a", 5);
    let b = enqueue_simple(&mut store, "k-b", 6);
    assert_ne!(a, b);
    assert_eq!(store.len(), 2);
}

#[test]
fn rehydrate_resets_terminal_row() {
    let mut store = JobStore::new();
    let id = enqueue_simple(&mut store, "k-re", 10);
    assert!(store.claim_update(id, "w1".to_string(), 11));
    assert!(store.complete(id, "w1", Some("{}".to_string()), None, 12));
    let row = store.job_get(id).expect("row");
    assert_eq!(row.status, JobStatus::Completed);
    assert_eq!(row.completed_at, Some(12));

    // Without rehydrate the terminal row is returned unchanged.
    let same = store.enqueue(
        "ingest_audio".to_string(),
        "k-re".to_string(),
        None,
        None,
        false,
        20,
    );
    assert_eq!(same.id, id);
    assert_eq!(same.status, JobStatus::Completed);

    // With rehydrate it returns to pending with counters cleared.
    let re = store.enqueue(
        "ingest_audio".to_string(),
        "k-re".to_string(),
        Some("fresh".to_string()),
        Some("fresh title".to_string()),
        true,
        30,
    );
    assert_eq!(re.id, id);
    assert_eq!(re.status, JobStatus::Pending);
    let row = store.job_get(id).expect("row");
    assert_eq!(row.retry_count, 0);
    assert_eq!(row.completed_at, None);
    assert_eq!(row.started_at, None);
    assert_eq!(row.available_at, Some(30));
}

#[test]
fn claim_exclusivity_one_winner() {
    let mut store = JobStore::new();
    let id = enqueue_simple(&mut store, "k-race", 10);
    let first = store.claim_update(id, "worker-a".to_string(), 11);
    let second = store.claim_update(id, "worker-b".to_string(), 11);
    assert!(first);
    assert!(!second);
    let row = store.job_get(id).expect("row");
    assert_eq!(row.worker_id.as_deref(), Some("worker-a"));
    assert_eq!(row.status, JobStatus::Processing);
    assert_eq!(row.leased_until, Some(11 + 300));
}

#[test]
fn claim_one_picks_oldest_created() {
    let mut store = JobStore::new();
    let early = enqueue_simple(&mut store, "k-early", 50);
    let tied = enqueue_simple(&mut store, "k-tied", 50);
    let late = enqueue_simple(&mut store, "k-late", 60);
    let claimed = store.claim_one("w".to_string(), 100).expect("claim");
    // Oldest created wins; a tie goes to the earlier-inserted row.
    assert_eq!(claimed.id, early);
    assert_ne!(claimed.id, late);
    let row = store.job_get(claimed.id).expect("row");
    assert_eq!(row.status, JobStatus::Processing);
    // The next claim takes the tied row, then the late one.
    let second = store.claim_one("w".to_string(), 100).expect("claim");
    assert_eq!(second.id, tied);
    let third = store.claim_one("w".to_string(), 100).expect("claim");
    assert_eq!(third.id, late);
    assert!(store.claim_one("w".to_string(), 100).is_none());
}

#[test]
fn claim_respects_available_at() {
    let mut store = JobStore::new();
    let id = enqueue_simple(&mut store, "k-avail", 100);
    assert!(store.claim_update(id, "w".to_string(), 100));
    // First failure: back off 30 seconds.
    let st = store.fail_or_retry(id, "w", "boom".to_string(), 100);
    assert_eq!(st, Some(JobStatus::Retrying));
    // Not claimable before the backoff elapses.
    assert!(store.claim_one("w".to_string(), 101).is_none());
    // Claimable at the backoff boundary.
    let claimed = store.claim_one("w".to_string(), 130).expect("claim");
    assert_eq!(claimed.id, id);
}

#[test]
fn backoff_monotone_formula() {
    assert_eq!(backoff_seconds(1), 30);
    assert_eq!(backoff_seconds(2), 120);
    assert_eq!(backoff_seconds(3), 480);
    assert_eq!(backoff_seconds(4), 1920);
    assert_eq!(backoff_seconds(5), 7680);
    let mut prev = 0;
    for n in 1..=5 {
        let b = backoff_seconds(n);
        assert!(b > prev);
        prev = b;
    }
}

#[test]
fn failure_sets_backoff_available_at() {
    let mut store = JobStore::new();
    let id = enqueue_simple(&mut store, "k-back", 1000);
    assert!(store.claim_update(id, "w".to_string(), 1000));
    let st = store.fail_or_retry(id, "w", "nope".to_string(), 1500);
    assert_eq!(st, Some(JobStatus::Retrying));
    let row = store.job_get(id).expect("row");
    // available_at - failure time == 30 * 4^(n-1) for the first retry.
    assert_eq!(row.available_at, Some(1500 + 30));
    assert_eq!(row.retry_count, 1);
    assert_eq!(row.last_error.as_deref(), Some("nope"));
    assert_eq!(row.worker_id, None);
    assert_eq!(row.leased_until, None);
}

#[test]
fn exhausted_retries_terminalize() {
    let mut store = JobStore::new();
    let id = enqueue_simple(&mut store, "k-dead", 0);
    let mut now = 1;
    for attempt in 1..=3 {
        let claimed = store
            .claim_one("w".to_string(), now)
            .unwrap_or_else(|| panic!("claim attempt {attempt}"));
        assert_eq!(claimed.id, id);
        let st = store.fail_or_retry(id, "w", "kaput".to_string(), now);
        if attempt < 3 {
            assert_eq!(st, Some(JobStatus::Retrying));
        } else {
            assert_eq!(st, Some(JobStatus::Failed));
        }
        now += 10_000;
    }
    let row = store.job_get(id).expect("row");
    assert_eq!(row.status, JobStatus::Failed);
    assert_eq!(row.retry_count, 3);
    assert_eq!(row.completed_at.is_some(), true);
    // A failed row never re-enters the queue.
    assert!(store.claim_one("w".to_string(), now + 1_000_000).is_none());
    assert!(!store.claim_update(id, "w2".to_string(), now));
}

#[test]
fn heartbeat_extends_only_owned_lease() {
    let mut store = JobStore::new();
    let id = enqueue_simple(&mut store, "k-hb", 10);
    assert!(!store.heartbeat(id, "w1", 11), "unclaimed row has no lease");
    assert!(store.claim_update(id, "w1".to_string(), 11));
    assert!(store.heartbeat(id, "w1", 40));
    let row = store.job_get(id).expect("row");
    assert_eq!(row.leased_until, Some(40 + 300));
    // Another identity cannot renew: it must abandon its work.
    assert!(!store.heartbeat(id, "w2", 50));
}

#[test]
fn stale_reclamation_resets_only_stale_rows() {
    let mut store = JobStore::new();
    let stale = enqueue_simple(&mut store, "k-stale", 0);
    let live = enqueue_simple(&mut store, "k-live", 0);
    assert!(store.claim_update(stale, "w1".to_string(), 10));
    // Lease expires at 310; stale past 310 + 90.
    assert!(store.claim_update(live, "w2".to_string(), 395));
    store.reclaim_stale(401);
    let s = store.job_get(stale).expect("row");
    assert_eq!(s.status, JobStatus::Pending);
    assert_eq!(s.worker_id, None);
    assert_eq!(s.leased_until, None);
    assert_eq!(s.updated_at, 401);
    let l = store.job_get(live).expect("row");
    assert_eq!(l.status, JobStatus::Processing);
    assert_eq!(l.worker_id.as_deref(), Some("w2"));
}

#[test]
fn stale_reclamation_needs_both_stamps_old() {
    let mut store = JobStore::new();
    let id = enqueue_simple(&mut store, "k-fresh-beat", 0);
    assert!(store.claim_update(id, "w1".to_string(), 10));
    // The lease (310) is long expired at 500, but a recent heartbeat keeps
    // `updated_at` fresh... a heartbeat also renews the lease, so emulate a
    // recent advisory update instead.
    assert!(store.set_progress(id, 50, None, 480));
    store.reclaim_stale(500);
    let row = store.job_get(id).expect("row");
    assert_eq!(row.status, JobStatus::Processing, "recently updated row is not stale");
}

fn statuses(rows: &[Job]) -> Vec<String> {
    rows.iter().map(|j| j.status.as_str().to_string()).collect()
}

#[test]
fn jobs_active_and_history_are_split() {
    let mut store = JobStore::new();
    let now = 100;
    // One row per status.
    let _pending = enqueue_simple(&mut store, "k-pending", now);
    let processing = enqueue_simple(&mut store, "k-processing", now + 1);
    assert!(store.claim_update(processing, "w".to_string(), now + 1));
    let retrying = enqueue_simple(&mut store, "k-retrying", now + 2);
    assert!(store.claim_update(retrying, "w".to_string(), now + 2));
    assert_eq!(
        store.fail_or_retry(retrying, "w", "e".to_string(), now + 2),
        Some(JobStatus::Retrying)
    );
    let completed = enqueue_simple(&mut store, "k-completed", now + 3);
    assert!(store.claim_update(completed, "w".to_string(), now + 3));
    assert!(store.complete(completed, "w", None, None, now + 3));
    let failed = enqueue_simple(&mut store, "k-failed", now + 4);
    for k in 0..3 {
        let t = now + 5 + k * 10_000;
        assert!(store.claim_update(failed, "w".to_string(), t));
        store.fail_or_retry(failed, "w", "e".to_string(), t);
    }

    let active_status = statuses(&store.jobs_active());
    let history_status = statuses(&store.jobs_history());

    assert!(active_status.contains(&"pending".to_string()));
    assert!(active_status.contains(&"processing".to_string()));
    assert!(active_status.contains(&"retrying".to_string()));
    assert!(!active_status.contains(&"completed".to_string()));

    assert!(history_status.contains(&"completed".to_string()));
    assert!(history_status.contains(&"failed".to_string()));
    assert!(!history_status.contains(&"pending".to_string()));
}

#[test]
fn active_is_oldest_first_and_history_capped() {
    let mut store = JobStore::new();
    // 60 terminal rows; history returns the 50 most recently updated.
    for i in 0..60i64 {
        let key = format!("k-{i}");
        let id = enqueue_simple(&mut store, &key, 10 + i);
        assert!(store.claim_update(id, "w".to_string(), 100 + i));
        assert!(store.complete(id, "w", None, None, 200 + i));
    }
    let history = store.jobs_history();
    assert_eq!(history.len(), HISTORY_LIMIT);
    // Newest first.
    assert_eq!(history[0].updated_at, 259);
    assert_eq!(history[49].updated_at, 210);

    // Active ordering: enqueue out of claim order, oldest created first.
    let mut store2 = JobStore::new();
    enqueue_simple(&mut store2, "b", 30);
    enqueue_simple(&mut store2, "a", 20);
    enqueue_simple(&mut store2, "c", 40);
    let active = store2.jobs_active();
    let stamps: Vec<i64> = active.iter().map(|j| j.created_at).collect();
    assert_eq!(stamps, vec![20, 30, 40]);
}

#[test]
fn set_progress_is_advisory() {
    let mut store = JobStore::new();
    let id = enqueue_simple(&mut store, "k-prog", 10);
    assert!(store.set_progress(id, 55, Some("halfway".to_string()), 12));
    let row = store.job_get(id).expect("row");
    assert_eq!(row.progress, 55);
    assert_eq!(row.title.as_deref(), Some("halfway"));
    assert_eq!(row.status, JobStatus::Pending, "no state-machine effect");
    assert!(!store.set_progress(9999, 10, None, 12), "unknown row");
}

#[test]
fn job_get_reports_missing_rows() {
    let mut store = JobStore::new();
    assert!(store.job_get(1).is_none());
    let id = enqueue_simple(&mut store, "k-get", 10);
    let row = store.job_get(id).expect("row");
    assert_eq!(row.idempotency_key.as_deref(), Some("k-get"));
    assert_eq!(row.max_retries, 3);
    assert_eq!(row.created_at, 10);
}

#[test]
fn restore_accepts_only_well_formed_rows() {
    let mut source = JobStore::new();
    let a = enqueue_simple(&mut source, "k-r1", 10);
    let b = enqueue_simple(&mut source, "k-r2", 11);
    assert!(source.claim_update(b, "w".to_string(), 12));

    // Rebuild a store from the persisted rows, in identifier order.
    let mut restored = JobStore::new();
    for row in source.rows() {
        assert!(restored.restore_row(row.clone()));
    }
    assert_eq!(restored.len(), 2);
    assert_eq!(restored.job_get(a).expect("row a").status, JobStatus::Pending);
    assert_eq!(restored.job_get(b).expect("row b").worker_id.as_deref(), Some("w"));
    // Fresh enqueues continue past the restored identifiers.
    let c = enqueue_simple(&mut restored, "k-r3", 20);
    assert!(c > b);

    // A row that breaks the invariant is refused: processing without a lease.
    let mut broken = source.job_get(a).expect("row a");
    broken.id = c + 1;
    broken.status = JobStatus::Processing;
    broken.idempotency_key = Some("k-broken".to_string());
    assert!(!restored.restore_row(broken));
    // A duplicate key is refused too.
    let mut dup = source.job_get(a).expect("row a");
    dup.id = c + 2;
    assert!(!restored.restore_row(dup));
}
