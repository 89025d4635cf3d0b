//! The queue's laws, proved over the store's transition functions.

use crate::job::JobModel;
use crate::status::JobStatus;
use crate::store::{
    active_jobs_of, has_id, has_key, idx_of, is_stale, key_idx, lemma_enqueue_wf, lemma_pow4_le,
    pow4, spec_backoff, spec_claim_update, spec_enqueue, spec_fail_or_retry, spec_reclaim,
    store_wf, terminal_jobs_of, StoreModel,
};
use vstd::prelude::*;

verus! {

/// Idempotent enqueue: once a row with an idempotency key exists, a second
/// enqueue of the same key without re-arming returns the same identifier
/// and leaves the store exactly as it was — whatever the first enqueue did
/// and whatever payload or title the second one carries.
pub proof fn lemma_enqueue_idempotent(
    m: StoreModel,
    kind1: Seq<char>,
    kind2: Seq<char>,
    key: Seq<char>,
    payload1: Option<Seq<char>>,
    payload2: Option<Seq<char>>,
    title1: Option<Seq<char>>,
    title2: Option<Seq<char>>,
    rehydrate1: bool,
    now1: int,
    now2: int,
)
    requires
        store_wf(m),
        1 <= now1,
    ensures
        ({
            let (m1, j1) = spec_enqueue(m, kind1, key, payload1, title1, rehydrate1, now1);
            let (m2, j2) = spec_enqueue(m1, kind2, key, payload2, title2, false, now2);
            m2 == m1 && j2.id == j1.id
        }),
{
    let (m1, j1) = spec_enqueue(m, kind1, key, payload1, title1, rehydrate1, now1);
    lemma_enqueue_wf(m, kind1, key, payload1, title1, rehydrate1, now1);
    // Exhibit the index in `m1` where the enqueued row sits, carrying `key`.
    if has_key(m.jobs, key) {
        let i = key_idx(m.jobs, key);
        assert(0 <= i < m.jobs.len() && m.jobs[i].idempotency_key == Some(key));
        assert(m1.jobs[i].idempotency_key == Some(key) && m1.jobs[i] == j1);
    } else {
        let i = m.jobs.len() as int;
        assert(m1.jobs[i].idempotency_key == Some(key) && m1.jobs[i] == j1);
    }
    assert(has_key(m1.jobs, key));
    let w = key_idx(m1.jobs, key);
    assert(0 <= w < m1.jobs.len() && m1.jobs[w].idempotency_key == Some(key));
    // Key uniqueness in `m1` forces the chosen index onto the row we placed.
    assert(m1.jobs[w] == j1);
}

/// Rehydrate resets dormant rows: a forced enqueue against a terminal row
/// reuses its identifier and returns it to pending with the attempt counter
/// cleared.
pub proof fn lemma_rehydrate_resets(
    m: StoreModel,
    kind: Seq<char>,
    key: Seq<char>,
    payload: Option<Seq<char>>,
    title: Option<Seq<char>>,
    now: int,
)
    requires
        store_wf(m),
        1 <= now,
        has_key(m.jobs, key),
        m.jobs[key_idx(m.jobs, key)].status.is_terminal(),
    ensures
        ({
            let (m1, j1) = spec_enqueue(m, kind, key, payload, title, true, now);
            &&& j1.id == m.jobs[key_idx(m.jobs, key)].id
            &&& j1.status == JobStatus::Pending
            &&& j1.retry_count == 0
            &&& j1.completed_at is None
        }),
{
}

/// Claim exclusivity: against one eligible row, the first conditional
/// update succeeds and any second attempt on the same row observes zero
/// rows affected and changes nothing, whichever workers race.
pub proof fn lemma_claim_exclusive(
    m: StoreModel,
    job_id: int,
    worker1: Seq<char>,
    worker2: Seq<char>,
    now1: int,
    now2: int,
)
    requires
        store_wf(m),
        has_id(m.jobs, job_id),
        m.jobs[idx_of(m.jobs, job_id)].eligible(now1),
    ensures
        ({
            let (m1, ok1) = spec_claim_update(m, job_id, worker1, now1);
            let (m2, ok2) = spec_claim_update(m1, job_id, worker2, now2);
            ok1 && !ok2 && m2 == m1
        }),
{
    let i = idx_of(m.jobs, job_id);
    let (m1, ok1) = spec_claim_update(m, job_id, worker1, now1);
    assert(m1.jobs[i].id == job_id && m1.jobs[i].status == JobStatus::Processing);
    assert(has_id(m1.jobs, job_id));
    let w = idx_of(m1.jobs, job_id);
    assert(0 <= w < m1.jobs.len() && m1.jobs[w].id == job_id);
    // Identifier uniqueness survives the update, so the second attempt finds
    // the row we just marked processing.
    assert forall|a: int, b: int|
        0 <= a < m1.jobs.len() && 0 <= b < m1.jobs.len() && a != b implies m1.jobs[a].id
        != m1.jobs[b].id by {
        assert(m.jobs[a].id != m.jobs[b].id);
    }
    assert(w == i);
}

/// Exhausted retries terminalize: when a processing row's next failure
/// reaches its retry budget, the failure transition marks it failed, and a
/// failed row can never be claimed again (short of an explicit rehydrate).
pub proof fn lemma_exhausted_retries_terminalize(
    m: StoreModel,
    job_id: int,
    worker: Seq<char>,
    err: Seq<char>,
    now: int,
)
    requires
        store_wf(m),
        has_id(m.jobs, job_id),
        m.jobs[idx_of(m.jobs, job_id)].status == JobStatus::Processing,
        m.jobs[idx_of(m.jobs, job_id)].worker_id == Some(worker),
        m.jobs[idx_of(m.jobs, job_id)].retry_count + 1 >= m.jobs[idx_of(m.jobs, job_id)].max_retries,
    ensures
        ({
            let (m1, st) = spec_fail_or_retry(m, job_id, worker, err, now);
            &&& st == Some(JobStatus::Failed)
            &&& m1.jobs[idx_of(m.jobs, job_id)].status == JobStatus::Failed
            &&& forall|w2: Seq<char>, t2: int|
                #[trigger] spec_claim_update(m1, job_id, w2, t2) == (m1, false)
        }),
{
    let i = idx_of(m.jobs, job_id);
    let (m1, st) = spec_fail_or_retry(m, job_id, worker, err, now);
    assert(m1.jobs[i].id == job_id && m1.jobs[i].status == JobStatus::Failed);
    assert forall|w2: Seq<char>, t2: int| #[trigger] spec_claim_update(m1, job_id, w2, t2) == (
        m1,
        false,
    ) by {
        assert(has_id(m1.jobs, job_id));
        let w = idx_of(m1.jobs, job_id);
        assert(0 <= w < m1.jobs.len() && m1.jobs[w].id == job_id);
        assert forall|a: int, b: int|
            0 <= a < m1.jobs.len() && 0 <= b < m1.jobs.len() && a != b implies m1.jobs[a].id
            != m1.jobs[b].id by {
            assert(m.jobs[a].id != m.jobs[b].id);
        }
        assert(w == i);
        assert(!m1.jobs[w].status.is_claimable());
    }
}

/// Stale reclamation: the sweep resets exactly the stale processing rows —
/// lease expiry and last update both beyond the grace period — to pending
/// with the lease cleared, and leaves every other row untouched.
pub proof fn lemma_stale_reclamation(m: StoreModel, i: int, now: int)
    requires
        0 <= i < m.jobs.len(),
    ensures
        ({
            let m1 = spec_reclaim(m, now);
            &&& is_stale(m.jobs[i], now) ==> m1.jobs[i].status == JobStatus::Pending
                && m1.jobs[i].worker_id is None && m1.jobs[i].leased_until is None
                && m1.jobs[i].id == m.jobs[i].id
            &&& !is_stale(m.jobs[i], now) ==> m1.jobs[i] == m.jobs[i]
        }),
{
}

/// History/active split: no row appears in both query domains; a row is
/// active or terminal, never both. (The history cap is part of the
/// `jobs_history` contract itself.)
pub proof fn lemma_history_active_split(m: StoreModel)
    ensures
        forall|j: JobModel| #[trigger]
            active_jobs_of(m).contains(j) ==> !terminal_jobs_of(m).contains(j),
        forall|j: JobModel| #[trigger]
            terminal_jobs_of(m).contains(j) ==> !active_jobs_of(m).contains(j),
{
    broadcast use vstd::seq_lib::group_filter_ensures;

    assert forall|j: JobModel| #[trigger] active_jobs_of(m).contains(j) implies !terminal_jobs_of(
        m,
    ).contains(j) by {
        let a = choose|a: int|
            0 <= a < active_jobs_of(m).len() && active_jobs_of(m)[a] == j;
        assert(j.status.is_active());
        if terminal_jobs_of(m).contains(j) {
            let b = choose|b: int|
                0 <= b < terminal_jobs_of(m).len() && terminal_jobs_of(m)[b] == j;
            assert(j.status.is_terminal());
        }
    }
    assert forall|j: JobModel| #[trigger] terminal_jobs_of(m).contains(j) implies !active_jobs_of(
        m,
    ).contains(j) by {
        let b = choose|b: int|
            0 <= b < terminal_jobs_of(m).len() && terminal_jobs_of(m)[b] == j;
        assert(j.status.is_terminal());
        if active_jobs_of(m).contains(j) {
            let a = choose|a: int|
                0 <= a < active_jobs_of(m).len() && active_jobs_of(m)[a] == j;
            assert(j.status.is_active());
        }
    }
}

/// Backoff scheduling: a non-final failure re-arms the row exactly
/// `30 * 4^(n-1)` seconds after the failure time, where `n` is the new
/// attempt count.
pub proof fn lemma_retry_backoff(
    m: StoreModel,
    job_id: int,
    worker: Seq<char>,
    err: Seq<char>,
    now: int,
)
    requires
        store_wf(m),
        has_id(m.jobs, job_id),
        m.jobs[idx_of(m.jobs, job_id)].status == JobStatus::Processing,
        m.jobs[idx_of(m.jobs, job_id)].worker_id == Some(worker),
        m.jobs[idx_of(m.jobs, job_id)].retry_count + 1 < m.jobs[idx_of(m.jobs, job_id)].max_retries,
    ensures
        ({
            let j = m.jobs[idx_of(m.jobs, job_id)];
            let (m1, st) = spec_fail_or_retry(m, job_id, worker, err, now);
            &&& st == Some(JobStatus::Retrying)
            &&& m1.jobs[idx_of(m.jobs, job_id)].available_at == Some(
                now + spec_backoff(j.retry_count + 1),
            )
            &&& m1.jobs[idx_of(m.jobs, job_id)].retry_count == j.retry_count + 1
        }),
{
}

/// Backoff values: the delays before the first five retries are exactly
/// 30, 120, 480, 1920 and 7680 seconds, and the delay grows strictly with
/// the attempt number.
pub proof fn lemma_backoff_values()
    ensures
        spec_backoff(1) == 30,
        spec_backoff(2) == 120,
        spec_backoff(3) == 480,
        spec_backoff(4) == 1920,
        spec_backoff(5) == 7680,
        forall|a: int, b: int| 1 <= a < b ==> #[trigger] spec_backoff(a) < #[trigger] spec_backoff(
            b,
        ),
{
    assert(spec_backoff(1) == 30 && spec_backoff(2) == 120 && spec_backoff(3) == 480
        && spec_backoff(4) == 1920 && spec_backoff(5) == 7680) by {
        reveal_with_fuel(pow4, 6);
    }
    assert forall|a: int, b: int| 1 <= a < b implies #[trigger] spec_backoff(a)
        < #[trigger] spec_backoff(b) by {
        lemma_pow4_lt((a - 1) as nat, (b - 1) as nat);
    }
}

/// `pow4` grows strictly.
proof fn lemma_pow4_lt(a: nat, b: nat)
    requires
        a < b,
    ensures
        pow4(a) < pow4(b),
    decreases b,
{
    lemma_pow4_le(0nat, a);
    if a + 1 < b {
        lemma_pow4_lt(a, (b - 1) as nat);
    }
}

} // verus!
