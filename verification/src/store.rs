//! The job store: one table of job rows with atomic claim, lease renewal,
//! progress/completion/failure mutation, stale reclamation, idempotent
//! enqueue and the read queries.
//!
//! Every mutation is specified by a transition function over [`StoreModel`];
//! the queue laws in [`crate::laws`] are proved over those transitions.

use crate::job::{ClaimedJob, Job, JobModel, JobResponse};
use crate::status::JobStatus;
use crate::strutil::opt_str_eq;
use vstd::prelude::*;

verus! {

/// How long a claim leases the row before another worker may reclaim it.
pub const LEASE_SECONDS: i64 = 300;

/// Grace period past lease expiry before a processing row counts as stale.
pub const STALE_GRACE_SECONDS: i64 = 90;

/// The history query returns at most this many rows.
pub const HISTORY_LIMIT: usize = 50;

/// Base of the exponential retry backoff, in seconds.
pub const BACKOFF_BASE_SECONDS: i64 = 30;

/// Upper bound on a row's retry budget; keeps the backoff arithmetic inside
/// `i64`.
pub const MAX_RETRY_LIMIT: i64 = 20;

/// Upper bound on timestamps the store accepts, far past any realistic
/// clock; keeps lease and backoff arithmetic inside `i64`.
pub const MAX_NOW: i64 = 100_000_000_000;

/// Ghost model of the whole store: the sequence of rows in insertion order,
/// and the next identifier to hand out.
pub ghost struct StoreModel {
    pub jobs: Seq<JobModel>,
    pub next_id: int,
}

/// Store invariant: every row is well formed, identifiers are unique and
/// below `next_id`, and at most one row holds any given idempotency key.
pub open spec fn store_wf(m: StoreModel) -> bool {
    &&& 1 <= m.next_id
    &&& forall|i: int| 0 <= i < m.jobs.len() ==> (#[trigger] m.jobs[i]).wf()
    &&& forall|i: int| 0 <= i < m.jobs.len() ==> (#[trigger] m.jobs[i]).id < m.next_id
    &&& forall|i: int, j: int|
        #![trigger m.jobs[i].id, m.jobs[j].id]
        0 <= i < m.jobs.len() && 0 <= j < m.jobs.len() && i != j ==> m.jobs[i].id != m.jobs[j].id
    &&& forall|i: int, j: int|
        #![trigger m.jobs[i].idempotency_key, m.jobs[j].idempotency_key]
        0 <= i < m.jobs.len() && 0 <= j < m.jobs.len() && i != j
            && m.jobs[i].idempotency_key is Some ==> m.jobs[i].idempotency_key
            != m.jobs[j].idempotency_key
}

/// Whether some row carries the identifier.
pub open spec fn has_id(jobs: Seq<JobModel>, id: int) -> bool {
    exists|i: int| 0 <= i < jobs.len() && (#[trigger] jobs[i]).id == id
}

/// Index of the row with the identifier (unique under [`store_wf`]).
pub open spec fn idx_of(jobs: Seq<JobModel>, id: int) -> int {
    choose|i: int| 0 <= i < jobs.len() && (#[trigger] jobs[i]).id == id
}

/// Whether some row carries the idempotency key.
pub open spec fn has_key(jobs: Seq<JobModel>, key: Seq<char>) -> bool {
    exists|i: int| 0 <= i < jobs.len() && (#[trigger] jobs[i]).idempotency_key == Some(key)
}

/// Index of the row with the key (unique under [`store_wf`]).
pub open spec fn key_idx(jobs: Seq<JobModel>, key: Seq<char>) -> int {
    choose|i: int| 0 <= i < jobs.len() && (#[trigger] jobs[i]).idempotency_key == Some(key)
}

/// 4 raised to `n`; the growth rate of the retry backoff.
pub open spec fn pow4(n: nat) -> nat
    decreases n,
{
    if n == 0 {
        1nat
    } else {
        4 * pow4((n - 1) as nat)
    }
}

/// Delay imposed before the `n`-th retry becomes claimable:
/// 30, 120, 480, ... seconds.
pub open spec fn spec_backoff(n: int) -> int
    recommends
        n >= 1,
{
    BACKOFF_BASE_SECONDS * pow4((n - 1) as nat)
}

/// `pow4` grows monotonically.
pub proof fn lemma_pow4_le(a: nat, b: nat)
    requires
        a <= b,
    ensures
        pow4(a) <= pow4(b),
    decreases b,
{
    if a < b {
        lemma_pow4_le(a, (b - 1) as nat);
    }
}

/// Computes the backoff delay for the `n`-th retry.
pub fn backoff_seconds(n: i64) -> (r: i64)
    requires
        1 <= n <= MAX_RETRY_LIMIT,
    ensures
        r == spec_backoff(n as int),
        0 < r <= 8246337208320,
{
    let mut acc: i64 = 1;
    let mut i: i64 = 1;
    while i < n
        invariant
            1 <= i <= n <= MAX_RETRY_LIMIT,
            acc == pow4((i - 1) as nat),
        decreases n - i,
    {
        proof {
            lemma_pow4_le(i as nat, (MAX_RETRY_LIMIT - 1) as nat);
            assert(pow4((MAX_RETRY_LIMIT - 1) as nat) == 274877906944) by {
                reveal_with_fuel(pow4, 21);
            }
        }
        acc = acc * 4;
        i = i + 1;
    }
    proof {
        lemma_pow4_le((n - 1) as nat, (MAX_RETRY_LIMIT - 1) as nat);
        lemma_pow4_le(0nat, (n - 1) as nat);
        assert(pow4((MAX_RETRY_LIMIT - 1) as nat) == 274877906944) by {
            reveal_with_fuel(pow4, 21);
        }
        assert(pow4(0nat) == 1);
    }
    BACKOFF_BASE_SECONDS * acc
}

/// The row as the conditional claim update leaves it: leased to `worker`
/// until `now + LEASE_SECONDS`, with `started_at` stamped on first claim.
pub open spec fn claimed_row(j: JobModel, worker: Seq<char>, now: int) -> JobModel {
    JobModel {
        status: JobStatus::Processing,
        worker_id: Some(worker),
        leased_until: Some(now + LEASE_SECONDS),
        started_at: if j.started_at is Some {
            j.started_at
        } else {
            Some(now)
        },
        updated_at: now,
        ..j
    }
}

/// The conditional update of the two-phase claim: marks the row processing
/// only if it is still claimable; a `false` result is a lost race and the
/// store is unchanged.
pub open spec fn spec_claim_update(
    m: StoreModel,
    job_id: int,
    worker: Seq<char>,
    now: int,
) -> (StoreModel, bool) {
    if has_id(m.jobs, job_id) && m.jobs[idx_of(m.jobs, job_id)].status.is_claimable() {
        let i = idx_of(m.jobs, job_id);
        (StoreModel { jobs: m.jobs.update(i, claimed_row(m.jobs[i], worker, now)), ..m }, true)
    } else {
        (m, false)
    }
}

/// The claim update preserves the store invariant.
pub proof fn lemma_claim_update_wf(m: StoreModel, job_id: int, worker: Seq<char>, now: int)
    requires
        store_wf(m),
        0 <= now,
    ensures
        store_wf(spec_claim_update(m, job_id, worker, now).0),
{
}

/// A freshly inserted pending row.
pub open spec fn pending_new_row(
    id: int,
    kind: Seq<char>,
    key: Seq<char>,
    payload: Option<Seq<char>>,
    title: Option<Seq<char>>,
    now: int,
) -> JobModel {
    JobModel {
        id: id,
        kind: kind,
        status: JobStatus::Pending,
        title: title,
        idempotency_key: Some(key),
        payload: payload,
        result_json: None,
        progress: 0,
        retry_count: 0,
        max_retries: crate::DEFAULT_MAX_RETRIES as int,
        last_error: None,
        worker_id: None,
        leased_until: None,
        available_at: Some(now),
        started_at: None,
        completed_at: None,
        created_at: now,
        updated_at: now,
    }
}

/// A dormant row re-armed by a forced enqueue: back to pending with fresh
/// payload and title, result, error, lease and lifecycle stamps cleared and
/// the retry count reset; identifier, key, retry budget and creation time
/// are kept.
pub open spec fn rehydrated_row(
    j: JobModel,
    kind: Seq<char>,
    payload: Option<Seq<char>>,
    title: Option<Seq<char>>,
    now: int,
) -> JobModel {
    JobModel {
        kind: kind,
        status: JobStatus::Pending,
        title: title,
        payload: payload,
        result_json: None,
        progress: 0,
        retry_count: 0,
        last_error: None,
        worker_id: None,
        leased_until: None,
        available_at: Some(now),
        started_at: None,
        completed_at: None,
        updated_at: now,
        ..j
    }
}

/// Idempotent insert: an existing pending or processing row is returned
/// unchanged; an existing dormant row is returned unchanged unless the
/// caller forces re-arming; otherwise a fresh pending row is inserted.
pub open spec fn spec_enqueue(
    m: StoreModel,
    kind: Seq<char>,
    key: Seq<char>,
    payload: Option<Seq<char>>,
    title: Option<Seq<char>>,
    rehydrate: bool,
    now: int,
) -> (StoreModel, JobModel) {
    if has_key(m.jobs, key) {
        let i = key_idx(m.jobs, key);
        let j = m.jobs[i];
        if j.status == JobStatus::Pending || j.status == JobStatus::Processing || !rehydrate {
            (m, j)
        } else {
            let nj = rehydrated_row(j, kind, payload, title, now);
            (StoreModel { jobs: m.jobs.update(i, nj), ..m }, nj)
        }
    } else {
        let nj = pending_new_row(m.next_id, kind, key, payload, title, now);
        (StoreModel { jobs: m.jobs.push(nj), next_id: m.next_id + 1 }, nj)
    }
}

/// Enqueue preserves the store invariant.
pub proof fn lemma_enqueue_wf(
    m: StoreModel,
    kind: Seq<char>,
    key: Seq<char>,
    payload: Option<Seq<char>>,
    title: Option<Seq<char>>,
    rehydrate: bool,
    now: int,
)
    requires
        store_wf(m),
        1 <= now,
    ensures
        store_wf(spec_enqueue(m, kind, key, payload, title, rehydrate, now).0),
{
    let (m2, j) = spec_enqueue(m, kind, key, payload, title, rehydrate, now);
    if has_key(m.jobs, key) {
        let i = key_idx(m.jobs, key);
        assert(0 <= i < m.jobs.len() && m.jobs[i].idempotency_key == Some(key));
    } else {
        assert forall|a: int, b: int|
            0 <= a < m2.jobs.len() && 0 <= b < m2.jobs.len() && a != b
                && m2.jobs[a].idempotency_key is Some implies m2.jobs[a].idempotency_key
            != m2.jobs[b].idempotency_key by {
            if a < m.jobs.len() && b == m.jobs.len() {
                assert(!(m.jobs[a].idempotency_key == Some(key)));
            }
            if b < m.jobs.len() && a == m.jobs.len() {
                assert(!(m.jobs[b].idempotency_key == Some(key)));
            }
        }
    }
}


/// The row after a successful lease renewal.
pub open spec fn heartbeat_row(j: JobModel, now: int) -> JobModel {
    JobModel { leased_until: Some(now + LEASE_SECONDS), updated_at: now, ..j }
}

/// Lease renewal, guarded by ownership: only the worker that holds the row
/// may extend the lease, and only while the row is still processing.
pub open spec fn spec_heartbeat(
    m: StoreModel,
    job_id: int,
    worker: Seq<char>,
    now: int,
) -> (StoreModel, bool) {
    if has_id(m.jobs, job_id) && m.jobs[idx_of(m.jobs, job_id)].status == JobStatus::Processing
        && m.jobs[idx_of(m.jobs, job_id)].worker_id == Some(worker) {
        let i = idx_of(m.jobs, job_id);
        (StoreModel { jobs: m.jobs.update(i, heartbeat_row(m.jobs[i], now)), ..m }, true)
    } else {
        (m, false)
    }
}

/// The row after completion: terminal, result recorded, lease cleared. A
/// missing replacement title keeps the old one.
pub open spec fn completed_row(
    j: JobModel,
    result: Option<Seq<char>>,
    title: Option<Seq<char>>,
    now: int,
) -> JobModel {
    JobModel {
        status: JobStatus::Completed,
        progress: 100,
        result_json: result,
        title: if title is Some {
            title
        } else {
            j.title
        },
        completed_at: Some(now),
        updated_at: now,
        worker_id: None,
        leased_until: None,
        ..j
    }
}

/// Completion, guarded by the same worker-id/status condition as the
/// heartbeat: a row reclaimed by another worker is left untouched.
pub open spec fn spec_complete(
    m: StoreModel,
    job_id: int,
    worker: Seq<char>,
    result: Option<Seq<char>>,
    title: Option<Seq<char>>,
    now: int,
) -> (StoreModel, bool) {
    if has_id(m.jobs, job_id) && m.jobs[idx_of(m.jobs, job_id)].status == JobStatus::Processing
        && m.jobs[idx_of(m.jobs, job_id)].worker_id == Some(worker) {
        let i = idx_of(m.jobs, job_id);
        (StoreModel { jobs: m.jobs.update(i, completed_row(m.jobs[i], result, title, now)), ..m },
        true)
    } else {
        (m, false)
    }
}

/// The row after its final failed attempt: terminal.
pub open spec fn failed_row(j: JobModel, err: Seq<char>, now: int) -> JobModel {
    JobModel {
        status: JobStatus::Failed,
        retry_count: j.retry_count + 1,
        last_error: Some(err),
        progress: 100,
        completed_at: Some(now),
        updated_at: now,
        worker_id: None,
        leased_until: None,
        ..j
    }
}

/// The row after a non-final failed attempt: back in the queue, claimable
/// only after the exponential backoff delay.
pub open spec fn retrying_row(j: JobModel, err: Seq<char>, now: int) -> JobModel {
    JobModel {
        status: JobStatus::Retrying,
        retry_count: j.retry_count + 1,
        last_error: Some(err),
        available_at: Some(now + spec_backoff(j.retry_count + 1)),
        updated_at: now,
        worker_id: None,
        leased_until: None,
        ..j
    }
}

/// The failure transition: increments the attempt count and either
/// terminalizes the row or schedules the retry; guarded by ownership.
pub open spec fn spec_fail_or_retry(
    m: StoreModel,
    job_id: int,
    worker: Seq<char>,
    err: Seq<char>,
    now: int,
) -> (StoreModel, Option<JobStatus>) {
    if has_id(m.jobs, job_id) && m.jobs[idx_of(m.jobs, job_id)].status == JobStatus::Processing
        && m.jobs[idx_of(m.jobs, job_id)].worker_id == Some(worker) {
        let i = idx_of(m.jobs, job_id);
        let j = m.jobs[i];
        if j.retry_count + 1 >= j.max_retries {
            (StoreModel { jobs: m.jobs.update(i, failed_row(j, err, now)), ..m },
            Some(JobStatus::Failed))
        } else {
            (StoreModel { jobs: m.jobs.update(i, retrying_row(j, err, now)), ..m },
            Some(JobStatus::Retrying))
        }
    } else {
        (m, None)
    }
}

/// The row after an advisory progress update.
pub open spec fn progressed_row(
    j: JobModel,
    progress: int,
    title: Option<Seq<char>>,
    now: int,
) -> JobModel {
    JobModel {
        progress: progress,
        title: if title is Some {
            title
        } else {
            j.title
        },
        updated_at: now,
        ..j
    }
}

/// The advisory progress update, keyed by identifier alone.
pub open spec fn spec_set_progress(
    m: StoreModel,
    job_id: int,
    progress: int,
    title: Option<Seq<char>>,
    now: int,
) -> (StoreModel, bool) {
    if has_id(m.jobs, job_id) {
        let i = idx_of(m.jobs, job_id);
        (StoreModel { jobs: m.jobs.update(i, progressed_row(m.jobs[i], progress, title, now)), ..m },
        true)
    } else {
        (m, false)
    }
}

/// A processing row abandoned by a crashed worker: both its lease expiry
/// and its last update lie more than the grace period in the past.
pub open spec fn is_stale(j: JobModel, now: int) -> bool {
    &&& j.status == JobStatus::Processing
    &&& match j.leased_until {
        Some(l) => l < now - STALE_GRACE_SECONDS,
        None => false,
    }
    &&& j.updated_at < now - STALE_GRACE_SECONDS
}

/// What the reclamation sweep does to one row.
pub open spec fn reclaim_step(j: JobModel, now: int) -> JobModel {
    if is_stale(j, now) {
        JobModel {
            status: JobStatus::Pending,
            worker_id: None,
            leased_until: None,
            updated_at: now,
            ..j
        }
    } else {
        j
    }
}

/// The stale-lease reclamation sweep over the whole table.
pub open spec fn spec_reclaim(m: StoreModel, now: int) -> StoreModel {
    StoreModel { jobs: Seq::new(m.jobs.len(), |i: int| reclaim_step(m.jobs[i], now)), ..m }
}

/// The reclamation sweep preserves the store invariant: it touches only
/// status, lease and update stamps, never identifiers or keys.
pub proof fn lemma_reclaim_wf(m: StoreModel, now: int)
    requires
        store_wf(m),
    ensures
        store_wf(spec_reclaim(m, now)),
{
    let m2 = spec_reclaim(m, now);
    assert forall|i: int| 0 <= i < m2.jobs.len() implies (#[trigger] m2.jobs[i]).wf() by {
        assert(m.jobs[i].wf());
    }
    assert forall|i: int| 0 <= i < m2.jobs.len() implies (#[trigger] m2.jobs[i]).id
        < m2.next_id by {
        assert(m.jobs[i].id < m.next_id);
    }
}


/// Selection rule of the claim protocol: the oldest-created eligible row,
/// earliest-inserted on ties. Defined as a scan so that the executable
/// selection matches it step by step.
pub open spec fn select_from(jobs: Seq<JobModel>, now: int) -> Option<int>
    decreases jobs.len(),
{
    if jobs.len() == 0 {
        None
    } else {
        let last = jobs.len() - 1;
        match select_from(jobs.drop_last(), now) {
            None => if jobs[last].eligible(now) {
                Some(last as int)
            } else {
                None
            },
            Some(i) => if jobs[last].eligible(now) && jobs[last].created_at
                < jobs[i].created_at {
                Some(last as int)
            } else {
                Some(i)
            },
        }
    }
}

/// What the selection rule guarantees: the selected row is eligible and is
/// minimal in creation order, with the earliest insertion breaking ties; if
/// nothing is selected, nothing was eligible.
pub proof fn lemma_select_from(jobs: Seq<JobModel>, now: int)
    ensures
        match select_from(jobs, now) {
            Some(i) => 0 <= i < jobs.len() && jobs[i].eligible(now) && forall|k: int|
                0 <= k < jobs.len() && (#[trigger] jobs[k]).eligible(now)
                    ==> jobs[i].created_at < jobs[k].created_at || (jobs[i].created_at
                    == jobs[k].created_at && i <= k),
            None => forall|k: int| 0 <= k < jobs.len() ==> !(#[trigger] jobs[k]).eligible(now),
        },
    decreases jobs.len(),
{
    if jobs.len() > 0 {
        lemma_select_from(jobs.drop_last(), now);
        assert forall|k: int| 0 <= k < jobs.len() - 1 implies jobs[k] == jobs.drop_last()[k] by {}
    }
}


/// Sort orders used by the read queries.
#[derive(Clone, Copy, PartialEq, Eq, Structural)]
pub enum SortKey {
    /// Oldest first, the claim order of the active queue.
    CreatedAsc,
    /// Most recently updated first, the history order.
    UpdatedDesc,
}

/// The ordering relation each sort key denotes.
pub open spec fn sort_le(key: SortKey, a: JobModel, b: JobModel) -> bool {
    match key {
        SortKey::CreatedAsc => a.created_at <= b.created_at,
        SortKey::UpdatedDesc => a.updated_at >= b.updated_at,
    }
}

/// Executable comparison matching [`sort_le`].
fn job_le(a: &Job, b: &Job, key: SortKey) -> (r: bool)
    ensures
        r == sort_le(key, a@, b@),
{
    match key {
        SortKey::CreatedAsc => a.created_at <= b.created_at,
        SortKey::UpdatedDesc => a.updated_at >= b.updated_at,
    }
}

/// The active rows, in insertion order.
pub open spec fn active_jobs_of(m: StoreModel) -> Seq<JobModel> {
    m.jobs.filter(|j: JobModel| j.status.is_active())
}

/// The terminal rows, in insertion order.
pub open spec fn terminal_jobs_of(m: StoreModel) -> Seq<JobModel> {
    m.jobs.filter(|j: JobModel| j.status.is_terminal())
}

/// A property that holds of every element of a sequence holds of every
/// element of any rearrangement of it.
proof fn lemma_perm_preserves_pred(
    s1: Seq<JobModel>,
    s2: Seq<JobModel>,
    pred: spec_fn(JobModel) -> bool,
)
    requires
        s1.to_multiset() == s2.to_multiset(),
        forall|i: int| 0 <= i < s1.len() ==> pred(#[trigger] s1[i]),
    ensures
        forall|i: int| 0 <= i < s2.len() ==> pred(#[trigger] s2[i]),
{
    broadcast use vstd::seq_lib::group_to_multiset_ensures;

    assert forall|i: int| 0 <= i < s2.len() implies pred(s2[i]) by {
        assert(s2.contains(s2[i]));
        assert(s1.to_multiset().count(s2[i]) > 0);
        assert(s1.contains(s2[i]));
        let j = choose|j: int| 0 <= j < s1.len() && s1[j] == s2[i];
        assert(pred(s1[j]));
    }
}

/// Sorts job rows by the given key, stably in no promised way: the result
/// is some rearrangement of the input in nondecreasing key order.
fn sort_jobs(v: Vec<Job>, key: SortKey) -> (r: Vec<Job>)
    ensures
        r.deep_view().to_multiset() == v.deep_view().to_multiset(),
        forall|a: int, b: int|
            0 <= a < b < r.deep_view().len() ==> sort_le(
                key,
                #[trigger] r.deep_view()[a],
                #[trigger] r.deep_view()[b],
            ),
{
    broadcast use vstd::seq_lib::group_to_multiset_ensures;

    let ghost orig = v.deep_view();
    let mut work = v;
    let mut out: Vec<Job> = Vec::new();
    proof {
        assert(out.deep_view() =~= Seq::<JobModel>::empty());
        assert(out.deep_view().to_multiset().add(work.deep_view().to_multiset())
            =~= orig.to_multiset());
    }
    while work.len() > 0
        invariant
            out.deep_view().to_multiset().add(work.deep_view().to_multiset()) == orig.to_multiset(),
            forall|a: int, b: int|
                0 <= a < b < out.deep_view().len() ==> sort_le(
                    key,
                    #[trigger] out.deep_view()[a],
                    #[trigger] out.deep_view()[b],
                ),
            forall|a: int, b: int|
                0 <= a < out.deep_view().len() && 0 <= b < work.deep_view().len() ==> sort_le(
                    key,
                    #[trigger] out.deep_view()[a],
                    #[trigger] work.deep_view()[b],
                ),
        decreases work.len(),
    {
        let n = work.len();
        let mut mi: usize = 0;
        let mut j: usize = 1;
        while j < n
            invariant
                n == work.deep_view().len(),
                n > 0,
                0 <= mi < j <= n,
                forall|k: int|
                    0 <= k < j ==> sort_le(
                        key,
                        work.deep_view()[mi as int],
                        #[trigger] work.deep_view()[k],
                    ),
            decreases n - j,
        {
            if !job_le(&work[mi], &work[j], key) {
                mi = j;
            }
            j += 1;
        }
        let ghost pre_work = work.deep_view();
        let ghost pre_out = out.deep_view();
        let row = work.remove(mi);
        out.push(row);
        proof {
            broadcast use vstd::seq_lib::group_to_multiset_ensures;

            assert(work.deep_view() =~= pre_work.remove(mi as int));
            assert(out.deep_view() =~= pre_out.push(pre_work[mi as int]));
            assert(pre_work.remove(mi as int).to_multiset() =~= pre_work.to_multiset().remove(
                pre_work[mi as int],
            ));
            assert(pre_work.contains(pre_work[mi as int]));
            assert(pre_work.to_multiset().count(pre_work[mi as int]) > 0);
            assert(out.deep_view().to_multiset().add(work.deep_view().to_multiset())
                =~= orig.to_multiset());
        }
    }
    proof {
        assert(work.deep_view() =~= Seq::<JobModel>::empty());
        assert(out.deep_view().to_multiset().add(work.deep_view().to_multiset())
            =~= out.deep_view().to_multiset());
    }
    out
}

/// The job store. The row vector is private: rows enter only through
/// `enqueue` and change only through the operations below, which is what
/// maintains the invariant.
pub struct JobStore {
    jobs: Vec<Job>,
    next_id: i64,
}

impl View for JobStore {
    type V = StoreModel;

    closed spec fn view(&self) -> StoreModel {
        StoreModel { jobs: self.jobs.deep_view(), next_id: self.next_id as int }
    }
}

impl JobStore {
    /// The store invariant, over the model.
    pub open spec fn wf(self) -> bool {
        store_wf(self@)
    }

    /// An empty store.
    pub fn new() -> (r: Self)
        ensures
            r.wf(),
            r@.jobs.len() == 0,
            r@.next_id == 1,
    {
        let r = JobStore { jobs: Vec::new(), next_id: 1 };
        proof {
            assert(r@.jobs =~= Seq::<JobModel>::empty());
        }
        r
    }

    /// Number of rows in the store.
    pub fn len(&self) -> (r: usize)
        ensures
            r == self@.jobs.len(),
    {
        self.jobs.len()
    }

    /// Index of the row with the identifier, if any.
    fn find_index(&self, job_id: i64) -> (r: Option<usize>)
        requires
            self.wf(),
        ensures
            match r {
                Some(i) => i < self@.jobs.len() && self@.jobs[i as int].id == job_id as int && i
                    as int == idx_of(self@.jobs, job_id as int),
                None => !has_id(self@.jobs, job_id as int),
            },
    {
        let n = self.jobs.len();
        let mut i: usize = 0;
        while i < n
            invariant
                self.wf(),
                n == self@.jobs.len(),
                0 <= i <= n,
                forall|k: int| 0 <= k < i ==> (#[trigger] self@.jobs[k]).id != job_id as int,
            decreases n - i,
        {
            if self.jobs[i].id == job_id {
                proof {
                    assert(self@.jobs[i as int].id == job_id as int);
                    assert(has_id(self@.jobs, job_id as int));
                    let w = idx_of(self@.jobs, job_id as int);
                    assert(0 <= w < self@.jobs.len() && self@.jobs[w].id == job_id as int);
                }
                return Some(i);
            }
            i += 1;
        }
        None
    }

    /// Index of the row with the idempotency key, if any.
    fn find_key_index(&self, key: &str) -> (r: Option<usize>)
        requires
            self.wf(),
        ensures
            match r {
                Some(i) => i < self@.jobs.len() && self@.jobs[i as int].idempotency_key == Some(
                    key@,
                ) && i as int == key_idx(self@.jobs, key@),
                None => !has_key(self@.jobs, key@),
            },
    {
        let n = self.jobs.len();
        let mut i: usize = 0;
        while i < n
            invariant
                self.wf(),
                n == self@.jobs.len(),
                0 <= i <= n,
                forall|k: int|
                    0 <= k < i ==> (#[trigger] self@.jobs[k]).idempotency_key != Some(key@),
            decreases n - i,
        {
            if opt_str_eq(&self.jobs[i].idempotency_key, key) {
                proof {
                    assert(self@.jobs[i as int].idempotency_key == Some(key@));
                    assert(has_key(self@.jobs, key@));
                    let w = key_idx(self@.jobs, key@);
                    assert(0 <= w < self@.jobs.len() && self@.jobs[w].idempotency_key == Some(
                        key@,
                    ));
                }
                return Some(i);
            }
            i += 1;
        }
        None
    }

    /// The conditional update of the two-phase claim protocol: marks the row
    /// processing for `worker_id` only if its status is still claimable.
    /// Returns `false` — zero rows affected, a lost race — otherwise; the
    /// caller must not treat the job as claimed then.
    pub fn claim_update(&mut self, job_id: i64, worker_id: String, now: i64) -> (r: bool)
        requires
            old(self).wf(),
            0 <= now <= MAX_NOW,
        ensures
            final(self).wf(),
            (final(self)@, r) == spec_claim_update(
                old(self)@,
                job_id as int,
                worker_id@,
                now as int,
            ),
    {
        proof {
            lemma_claim_update_wf(old(self)@, job_id as int, worker_id@, now as int);
        }
        match self.find_index(job_id) {
            Some(i) => {
                let claimable = match self.jobs[i].status {
                    JobStatus::Pending => true,
                    JobStatus::Retrying => true,
                    _ => false,
                };
                if !claimable {
                    return false;
                }
                let mut row = self.jobs.remove(i);
                let ghost oldrow = row@;
                row.status = JobStatus::Processing;
                row.worker_id = Some(worker_id);
                row.leased_until = Some(now + LEASE_SECONDS);
                if row.started_at.is_none() {
                    row.started_at = Some(now);
                }
                row.updated_at = now;
                proof {
                    assert(row@ == claimed_row(oldrow, worker_id@, now as int));
                }
                self.jobs.insert(i, row);
                proof {
                    assert(self@.jobs =~= old(self)@.jobs.update(
                        i as int,
                        claimed_row(oldrow, worker_id@, now as int),
                    ));
                }
                true
            },
            None => false,
        }
    }

    /// Idempotent enqueue (spec: see [`spec_enqueue`]). Returns the
    /// resulting row's identifier, status and kind.
    pub fn enqueue(
        &mut self,
        kind: String,
        idempotency_key: String,
        payload: Option<String>,
        title: Option<String>,
        rehydrate: bool,
        now: i64,
    ) -> (r: JobResponse)
        requires
            old(self).wf(),
            1 <= now <= MAX_NOW,
            old(self)@.next_id < i64::MAX as int,
        ensures
            final(self).wf(),
            ({
                let (m2, j) = spec_enqueue(
                    old(self)@,
                    kind@,
                    idempotency_key@,
                    payload.deep_view(),
                    title.deep_view(),
                    rehydrate,
                    now as int,
                );
                final(self)@ == m2 && r.id as int == j.id && r.status == j.status && r.kind@
                    == j.kind
            }),
    {
        proof {
            lemma_enqueue_wf(
                old(self)@,
                kind@,
                idempotency_key@,
                payload.deep_view(),
                title.deep_view(),
                rehydrate,
                now as int,
            );
        }
        match self.find_key_index(idempotency_key.as_str()) {
            Some(i) => {
                let dormant = match self.jobs[i].status {
                    JobStatus::Pending => false,
                    JobStatus::Processing => false,
                    _ => true,
                };
                if !(dormant && rehydrate) {
                    let r = JobResponse::from_job(&self.jobs[i]);
                    proof {
                        assert(self@ == old(self)@);
                    }
                    return r;
                }
                let mut row = self.jobs.remove(i);
                let ghost oldrow = row@;
                row.kind = kind;
                row.status = JobStatus::Pending;
                row.title = title;
                row.payload = payload;
                row.result_json = None;
                row.progress = 0;
                row.retry_count = 0;
                row.last_error = None;
                row.worker_id = None;
                row.leased_until = None;
                row.available_at = Some(now);
                row.started_at = None;
                row.completed_at = None;
                row.updated_at = now;
                proof {
                    assert(row@ == rehydrated_row(
                        oldrow,
                        kind@,
                        payload.deep_view(),
                        title.deep_view(),
                        now as int,
                    ));
                }
                let r = JobResponse::from_job(&row);
                self.jobs.insert(i, row);
                proof {
                    assert(self@.jobs =~= old(self)@.jobs.update(
                        i as int,
                        rehydrated_row(
                            oldrow,
                            kind@,
                            payload.deep_view(),
                            title.deep_view(),
                            now as int,
                        ),
                    ));
                }
                r
            },
            None => {
                let id = self.next_id;
                let row = Job {
                    id: id,
                    kind: kind,
                    status: JobStatus::Pending,
                    title: title,
                    idempotency_key: Some(idempotency_key),
                    payload: payload,
                    result_json: None,
                    progress: 0,
                    retry_count: 0,
                    max_retries: crate::DEFAULT_MAX_RETRIES,
                    last_error: None,
                    worker_id: None,
                    leased_until: None,
                    available_at: Some(now),
                    started_at: None,
                    completed_at: None,
                    created_at: now,
                    updated_at: now,
                };
                let r = JobResponse::from_job(&row);
                self.jobs.push(row);
                self.next_id = id + 1;
                proof {
                    assert(self@.jobs =~= old(self)@.jobs.push(
                        pending_new_row(
                            old(self)@.next_id,
                            kind@,
                            idempotency_key@,
                            payload.deep_view(),
                            title.deep_view(),
                            now as int,
                        ),
                    ));
                }
                r
            },
        }
    }

    /// Extends the lease by `LEASE_SECONDS` if the row is still processing
    /// and still owned by `worker_id`. A `false` result means the lease was
    /// already reclaimed and the caller must abandon its in-flight work.
    pub fn heartbeat(&mut self, job_id: i64, worker_id: &str, now: i64) -> (r: bool)
        requires
            old(self).wf(),
            0 <= now <= MAX_NOW,
        ensures
            final(self).wf(),
            (final(self)@, r) == spec_heartbeat(old(self)@, job_id as int, worker_id@, now as int),
    {
        match self.find_index(job_id) {
            Some(i) => {
                let owned = match self.jobs[i].status {
                    JobStatus::Processing => opt_str_eq(&self.jobs[i].worker_id, worker_id),
                    _ => false,
                };
                if !owned {
                    return false;
                }
                let mut row = self.jobs.remove(i);
                let ghost oldrow = row@;
                row.leased_until = Some(now + LEASE_SECONDS);
                row.updated_at = now;
                proof {
                    assert(row@ == heartbeat_row(oldrow, now as int));
                }
                self.jobs.insert(i, row);
                proof {
                    assert(self@.jobs =~= old(self)@.jobs.update(
                        i as int,
                        heartbeat_row(oldrow, now as int),
                    ));
                }
                true
            },
            None => false,
        }
    }

    /// Marks the row completed with its result, full progress and a
    /// `completed_at` stamp, clearing the lease. Guarded like `heartbeat`:
    /// a `false` result means another worker has reclaimed the row and the
    /// call was a no-op.
    pub fn complete(
        &mut self,
        job_id: i64,
        worker_id: &str,
        result_json: Option<String>,
        title: Option<String>,
        now: i64,
    ) -> (r: bool)
        requires
            old(self).wf(),
            0 <= now <= MAX_NOW,
        ensures
            final(self).wf(),
            (final(self)@, r) == spec_complete(
                old(self)@,
                job_id as int,
                worker_id@,
                result_json.deep_view(),
                title.deep_view(),
                now as int,
            ),
    {
        match self.find_index(job_id) {
            Some(i) => {
                let owned = match self.jobs[i].status {
                    JobStatus::Processing => opt_str_eq(&self.jobs[i].worker_id, worker_id),
                    _ => false,
                };
                if !owned {
                    return false;
                }
                let mut row = self.jobs.remove(i);
                let ghost oldrow = row@;
                row.status = JobStatus::Completed;
                row.progress = 100;
                row.result_json = result_json;
                if title.is_some() {
                    row.title = title;
                }
                row.completed_at = Some(now);
                row.updated_at = now;
                row.worker_id = None;
                row.leased_until = None;
                proof {
                    assert(row@ == completed_row(
                        oldrow,
                        result_json.deep_view(),
                        title.deep_view(),
                        now as int,
                    ));
                }
                self.jobs.insert(i, row);
                proof {
                    assert(self@.jobs =~= old(self)@.jobs.update(
                        i as int,
                        completed_row(
                            oldrow,
                            result_json.deep_view(),
                            title.deep_view(),
                            now as int,
                        ),
                    ));
                }
                true
            },
            None => false,
        }
    }

    /// Books one failed attempt. If the new attempt count reaches the
    /// budget the row fails for good; otherwise it re-enters the queue as
    /// retrying, claimable again only after the exponential backoff delay.
    /// Guarded like `heartbeat`; `None` means the row was not ours any more.
    pub fn fail_or_retry(
        &mut self,
        job_id: i64,
        worker_id: &str,
        last_error: String,
        now: i64,
    ) -> (r: Option<JobStatus>)
        requires
            old(self).wf(),
            0 <= now <= MAX_NOW,
        ensures
            final(self).wf(),
            (final(self)@, r) == spec_fail_or_retry(
                old(self)@,
                job_id as int,
                worker_id@,
                last_error@,
                now as int,
            ),
    {
        match self.find_index(job_id) {
            Some(i) => {
                let owned = match self.jobs[i].status {
                    JobStatus::Processing => opt_str_eq(&self.jobs[i].worker_id, worker_id),
                    _ => false,
                };
                if !owned {
                    return None;
                }
                let mut row = self.jobs.remove(i);
                let ghost oldrow = row@;
                proof {
                    assert(oldrow.wf());
                }
                let next_retry = row.retry_count + 1;
                if next_retry >= row.max_retries {
                    row.status = JobStatus::Failed;
                    row.retry_count = next_retry;
                    row.last_error = Some(last_error);
                    row.progress = 100;
                    row.completed_at = Some(now);
                    row.updated_at = now;
                    row.worker_id = None;
                    row.leased_until = None;
                    proof {
                        assert(row@ == failed_row(oldrow, last_error@, now as int));
                    }
                    self.jobs.insert(i, row);
                    proof {
                        assert(self@.jobs =~= old(self)@.jobs.update(
                            i as int,
                            failed_row(oldrow, last_error@, now as int),
                        ));
                    }
                    Some(JobStatus::Failed)
                } else {
                    let backoff = backoff_seconds(next_retry);
                    row.status = JobStatus::Retrying;
                    row.retry_count = next_retry;
                    row.last_error = Some(last_error);
                    row.available_at = Some(now + backoff);
                    row.updated_at = now;
                    row.worker_id = None;
                    row.leased_until = None;
                    proof {
                        assert(row@ == retrying_row(oldrow, last_error@, now as int));
                    }
                    self.jobs.insert(i, row);
                    proof {
                        assert(self@.jobs =~= old(self)@.jobs.update(
                            i as int,
                            retrying_row(oldrow, last_error@, now as int),
                        ));
                    }
                    Some(JobStatus::Retrying)
                }
            },
            None => None,
        }
    }

    /// Advisory progress update: no state-machine effect. Returns whether a
    /// row with the identifier existed.
    pub fn set_progress(
        &mut self,
        job_id: i64,
        progress: i64,
        title: Option<String>,
        now: i64,
    ) -> (r: bool)
        requires
            old(self).wf(),
            0 <= now <= MAX_NOW,
            0 <= progress <= 100,
        ensures
            final(self).wf(),
            (final(self)@, r) == spec_set_progress(
                old(self)@,
                job_id as int,
                progress as int,
                title.deep_view(),
                now as int,
            ),
    {
        match self.find_index(job_id) {
            Some(i) => {
                let mut row = self.jobs.remove(i);
                let ghost oldrow = row@;
                row.progress = progress;
                if title.is_some() {
                    row.title = title;
                }
                row.updated_at = now;
                proof {
                    assert(row@ == progressed_row(
                        oldrow,
                        progress as int,
                        title.deep_view(),
                        now as int,
                    ));
                }
                self.jobs.insert(i, row);
                proof {
                    assert(self@.jobs =~= old(self)@.jobs.update(
                        i as int,
                        progressed_row(oldrow, progress as int, title.deep_view(), now as int),
                    ));
                }
                true
            },
            None => false,
        }
    }

    /// Crash recovery: every processing row whose lease expiry and last
    /// update both lie more than `STALE_GRACE_SECONDS` in the past is
    /// presumed abandoned and reset to pending with its lease cleared.
    /// Rows with a live lease are untouched.
    pub fn reclaim_stale(&mut self, now: i64)
        requires
            old(self).wf(),
            0 <= now <= MAX_NOW,
        ensures
            final(self).wf(),
            final(self)@ == spec_reclaim(old(self)@, now as int),
    {
        let n = self.jobs.len();
        let mut i: usize = 0;
        while i < n
            invariant
                0 <= i <= n,
                0 <= now <= MAX_NOW,
                n == self@.jobs.len(),
                self@.next_id == old(self)@.next_id,
                forall|k: int| i <= k < n ==> self@.jobs[k] == old(self)@.jobs[k],
                forall|k: int|
                    0 <= k < i ==> self@.jobs[k] == reclaim_step(old(self)@.jobs[k], now as int),
            decreases n - i,
        {
            let ghost pre = self@.jobs;
            let stale = match self.jobs[i].status {
                JobStatus::Processing => match self.jobs[i].leased_until {
                    Some(l) => l < now - STALE_GRACE_SECONDS && self.jobs[i].updated_at < now
                        - STALE_GRACE_SECONDS,
                    None => false,
                },
                _ => false,
            };
            proof {
                assert(stale == is_stale(pre[i as int], now as int));
            }
            if stale {
                let mut row = self.jobs.remove(i);
                let ghost oldrow = row@;
                proof {
                    assert(oldrow == pre[i as int]);
                }
                row.status = JobStatus::Pending;
                row.worker_id = None;
                row.leased_until = None;
                row.updated_at = now;
                proof {
                    assert(row@ == reclaim_step(oldrow, now as int));
                }
                self.jobs.insert(i, row);
                proof {
                    assert(self@.jobs =~= pre.update(
                        i as int,
                        reclaim_step(pre[i as int], now as int),
                    ));
                }
            } else {
                proof {
                    assert(reclaim_step(pre[i as int], now as int) == pre[i as int]);
                }
            }
            i += 1;
        }
        proof {
            assert(self@.jobs =~= spec_reclaim(old(self)@, now as int).jobs);
            lemma_reclaim_wf(old(self)@, now as int);
        }
    }

    /// Whether the row at `i` is eligible for claiming at `now`.
    fn eligible_at(&self, i: usize, now: i64) -> (r: bool)
        requires
            i < self@.jobs.len(),
        ensures
            r == self@.jobs[i as int].eligible(now as int),
    {
        let claimable = match self.jobs[i].status {
            JobStatus::Pending => true,
            JobStatus::Retrying => true,
            _ => false,
        };
        let available = match self.jobs[i].available_at {
            Some(t) => t <= now,
            None => true,
        };
        claimable && available && self.jobs[i].retry_count < self.jobs[i].max_retries
    }

    /// One whole claim attempt: selects the oldest-created eligible row and
    /// runs the conditional update on it. `None` means no row was eligible
    /// and the store is unchanged. The returned copy describes the row as
    /// it was selected, before the update.
    pub fn claim_one(&mut self, worker_id: String, now: i64) -> (r: Option<ClaimedJob>)
        requires
            old(self).wf(),
            0 <= now <= MAX_NOW,
        ensures
            final(self).wf(),
            match r {
                None => select_from(old(self)@.jobs, now as int) is None && final(self)@ == old(
                    self,
                )@,
                Some(c) => {
                    let sel = select_from(old(self)@.jobs, now as int);
                    &&& sel is Some
                    &&& {
                        let j = old(self)@.jobs[sel->0];
                        &&& c.id as int == j.id
                        &&& c.kind@ == j.kind
                        &&& c.title.deep_view() == j.title
                        &&& c.payload.deep_view() == j.payload
                        &&& c.retry_count as int == j.retry_count
                        &&& c.max_retries as int == j.max_retries
                        &&& (final(self)@, true) == spec_claim_update(
                            old(self)@,
                            j.id,
                            worker_id@,
                            now as int,
                        )
                    }
                },
            },
    {
        let n = self.jobs.len();
        let mut best: Option<usize> = None;
        let mut i: usize = 0;
        proof {
            assert(self@.jobs.take(0) =~= Seq::<JobModel>::empty());
        }
        while i < n
            invariant
                self.wf(),
                0 <= i <= n,
                n == self@.jobs.len(),
                match best {
                    None => select_from(self@.jobs.take(i as int), now as int) is None,
                    Some(b) => b < i && select_from(self@.jobs.take(i as int), now as int)
                        == Some(b as int),
                },
            decreases n - i,
        {
            proof {
                assert(self@.jobs.take(i as int + 1).drop_last() =~= self@.jobs.take(i as int));
                assert(self@.jobs.take(i as int + 1).last() == self@.jobs[i as int]);
            }
            let ok = self.eligible_at(i, now);
            match best {
                None => {
                    if ok {
                        best = Some(i);
                    }
                },
                Some(b) => {
                    if ok && self.jobs[i].created_at < self.jobs[b].created_at {
                        best = Some(i);
                    }
                },
            }
            i += 1;
        }
        proof {
            assert(self@.jobs.take(n as int) =~= self@.jobs);
        }
        match best {
            None => None,
            Some(b) => {
                let c = ClaimedJob {
                    id: self.jobs[b].id,
                    kind: self.jobs[b].kind.clone(),
                    title: crate::job::clone_opt_string(&self.jobs[b].title),
                    payload: crate::job::clone_opt_string(&self.jobs[b].payload),
                    retry_count: self.jobs[b].retry_count,
                    max_retries: self.jobs[b].max_retries,
                };
                let id = self.jobs[b].id;
                proof {
                    lemma_select_from(self@.jobs, now as int);
                    assert(has_id(self@.jobs, id as int));
                    let w = idx_of(self@.jobs, id as int);
                    assert(0 <= w < self@.jobs.len() && self@.jobs[w].id == id as int);
                    assert(w == b as int);
                }
                let ok = self.claim_update(id, worker_id, now);
                proof {
                    assert(ok);
                }
                Some(c)
            },
        }
    }

    /// The row with the identifier, if any, as it currently stands.
    pub fn job_get(&self, job_id: i64) -> (r: Option<Job>)
        requires
            self.wf(),
        ensures
            match r {
                Some(j) => has_id(self@.jobs, job_id as int) && j@ == self@.jobs[idx_of(
                    self@.jobs,
                    job_id as int,
                )],
                None => !has_id(self@.jobs, job_id as int),
            },
    {
        match self.find_index(job_id) {
            Some(i) => Some(self.jobs[i].clone()),
            None => None,
        }
    }

    /// Rows the active queue holds, oldest first — the order in which they
    /// will be claimed.
    pub fn jobs_active(&self) -> (r: Vec<Job>)
        requires
            self.wf(),
        ensures
            r.deep_view().to_multiset() == active_jobs_of(self@).to_multiset(),
            forall|i: int|
                0 <= i < r.deep_view().len() ==> (#[trigger] r.deep_view()[i]).status.is_active(),
            forall|a: int, b: int|
                0 <= a < b < r.deep_view().len() ==> (#[trigger] r.deep_view()[a]).created_at <= (
                #[trigger] r.deep_view()[b]).created_at,
    {
        let n = self.jobs.len();
        let mut picked: Vec<Job> = Vec::new();
        let mut i: usize = 0;
        proof {
            broadcast use vstd::seq_lib::group_filter_ensures;

            assert(self@.jobs.take(0) =~= Seq::<JobModel>::empty());
            reveal(Seq::filter);
            assert(picked.deep_view() =~= Seq::<JobModel>::empty());
        }
        while i < n
            invariant
                self.wf(),
                0 <= i <= n,
                n == self@.jobs.len(),
                picked.deep_view() == self@.jobs.take(i as int).filter(
                    |j: JobModel| j.status.is_active(),
                ),
            decreases n - i,
        {
            let ghost pre = picked.deep_view();
            let active = match self.jobs[i].status {
                JobStatus::Completed => false,
                JobStatus::Failed => false,
                _ => true,
            };
            if active {
                picked.push(self.jobs[i].clone());
            }
            proof {
                reveal(Seq::filter);
                assert(self@.jobs.take(i as int + 1).drop_last() =~= self@.jobs.take(i as int));
                assert(self@.jobs.take(i as int + 1).last() == self@.jobs[i as int]);
                if active {
                    assert(picked.deep_view() =~= pre.push(self@.jobs[i as int]));
                }
            }
            i += 1;
        }
        proof {
            assert(self@.jobs.take(n as int) =~= self@.jobs);
        }
        let ghost filtered = picked.deep_view();
        let r = sort_jobs(picked, SortKey::CreatedAsc);
        proof {
            broadcast use vstd::seq_lib::group_filter_ensures;

            lemma_perm_preserves_pred(
                filtered,
                r.deep_view(),
                |j: JobModel| j.status.is_active(),
            );
        }
        r
    }

    /// The most recently updated terminal rows, newest first, capped at
    /// `HISTORY_LIMIT`. The witness sequence in the contract is the full
    /// history ordering of which the result is the prefix.
    pub fn jobs_history(&self) -> (r: Vec<Job>)
        requires
            self.wf(),
        ensures
            forall|i: int|
                0 <= i < r.deep_view().len() ==> (#[trigger] r.deep_view()[i]).status.is_terminal(),
            forall|a: int, b: int|
                0 <= a < b < r.deep_view().len() ==> (#[trigger] r.deep_view()[a]).updated_at >= (
                #[trigger] r.deep_view()[b]).updated_at,
            r.deep_view().len() == if terminal_jobs_of(self@).len() < HISTORY_LIMIT {
                terminal_jobs_of(self@).len() as int
            } else {
                HISTORY_LIMIT as int
            },
            exists|full: Seq<JobModel>|
                {
                    &&& #[trigger] full.to_multiset() == terminal_jobs_of(self@).to_multiset()
                    &&& forall|a: int, b: int|
                        0 <= a < b < full.len() ==> (#[trigger] full[a]).updated_at >= (
                        #[trigger] full[b]).updated_at
                    &&& r.deep_view() == full.take(r.deep_view().len() as int)
                },
    {
        broadcast use vstd::seq_lib::group_to_multiset_ensures;

        let n = self.jobs.len();
        let mut picked: Vec<Job> = Vec::new();
        let mut i: usize = 0;
        proof {
            assert(self@.jobs.take(0) =~= Seq::<JobModel>::empty());
            reveal(Seq::filter);
            assert(picked.deep_view() =~= Seq::<JobModel>::empty());
        }
        while i < n
            invariant
                self.wf(),
                0 <= i <= n,
                n == self@.jobs.len(),
                picked.deep_view() == self@.jobs.take(i as int).filter(
                    |j: JobModel| j.status.is_terminal(),
                ),
            decreases n - i,
        {
            let ghost pre = picked.deep_view();
            let terminal = match self.jobs[i].status {
                JobStatus::Completed => true,
                JobStatus::Failed => true,
                _ => false,
            };
            if terminal {
                picked.push(self.jobs[i].clone());
            }
            proof {
                reveal(Seq::filter);
                assert(self@.jobs.take(i as int + 1).drop_last() =~= self@.jobs.take(i as int));
                assert(self@.jobs.take(i as int + 1).last() == self@.jobs[i as int]);
                if terminal {
                    assert(picked.deep_view() =~= pre.push(self@.jobs[i as int]));
                }
            }
            i += 1;
        }
        proof {
            assert(self@.jobs.take(n as int) =~= self@.jobs);
        }
        let ghost filtered = picked.deep_view();
        let mut r = sort_jobs(picked, SortKey::UpdatedDesc);
        let ghost full = r.deep_view();
        proof {
            broadcast use vstd::seq_lib::group_filter_ensures;

            lemma_perm_preserves_pred(
                filtered,
                full,
                |j: JobModel| j.status.is_terminal(),
            );
            assert(full.to_multiset().len() == filtered.to_multiset().len());
            assert(full.len() == filtered.len());
        }
        if r.len() > HISTORY_LIMIT {
            r.truncate(HISTORY_LIMIT);
        }
        proof {
            assert(r.deep_view() =~= full.take(r.deep_view().len() as int));
        }
        r
    }

    /// Read-only view of the rows, in insertion order.
    pub fn rows(&self) -> (r: &Vec<Job>)
        ensures
            r.deep_view() == self@.jobs,
    {
        &self.jobs
    }

    /// Whether a row satisfies the row invariant; checked when rows are
    /// restored from persistence.
    fn row_wf_check(row: &Job) -> (r: bool)
        ensures
            r == row@.wf(),
    {
        let processing = match row.status {
            JobStatus::Processing => true,
            _ => false,
        };
        let terminal = match row.status {
            JobStatus::Completed => true,
            JobStatus::Failed => true,
            _ => false,
        };
        row.id >= 1 && 0 <= row.progress && row.progress <= 100 && 0 <= row.retry_count
            && row.retry_count <= row.max_retries && 1 <= row.max_retries && row.max_retries
            <= MAX_RETRY_LIMIT && (processing == row.worker_id.is_some()) && (processing
            == row.leased_until.is_some()) && (terminal == row.completed_at.is_some()) && (terminal
            || row.retry_count < row.max_retries)
    }

    /// Restores one persisted row, in ascending identifier order: the row is
    /// accepted only if it satisfies the row invariant, its identifier is
    /// fresh, and its idempotency key (if any) is unused; acceptance appends
    /// it and advances the identifier counter past it. A `false` result
    /// leaves the store unchanged.
    pub fn restore_row(&mut self, row: Job) -> (r: bool)
        requires
            old(self).wf(),
        ensures
            final(self).wf(),
            r ==> final(self)@.jobs == old(self)@.jobs.push(row@) && final(self)@.next_id == row@.id
                + 1,
            !r ==> final(self)@ == old(self)@,
    {
        if !Self::row_wf_check(&row) {
            return false;
        }
        if row.id < self.next_id || row.id >= i64::MAX {
            return false;
        }
        if let Some(key) = &row.idempotency_key {
            if self.find_key_index(key.as_str()).is_some() {
                return false;
            }
        }
        let new_next = row.id + 1;
        let ghost rowm = row@;
        self.jobs.push(row);
        self.next_id = new_next;
        proof {
            assert(self@.jobs =~= old(self)@.jobs.push(rowm));
            let m2 = self@;
            assert forall|a: int, b: int|
                0 <= a < m2.jobs.len() && 0 <= b < m2.jobs.len() && a != b
                    && m2.jobs[a].idempotency_key is Some implies m2.jobs[a].idempotency_key
                != m2.jobs[b].idempotency_key by {
                if b == m2.jobs.len() - 1 && a < b && rowm.idempotency_key is Some {
                    assert(!(old(self)@.jobs[a].idempotency_key == Some(
                        rowm.idempotency_key->0,
                    )));
                }
                if a == m2.jobs.len() - 1 && b < a && rowm.idempotency_key is Some {
                    assert(!(old(self)@.jobs[b].idempotency_key == Some(
                        rowm.idempotency_key->0,
                    )));
                }
            }
        }
        true
    }

    /// The next identifier the store will assign.
    pub fn next_id_hint(&self) -> (r: i64)
        ensures
            r as int == self@.next_id,
    {
        self.next_id
    }
}

} // verus!
