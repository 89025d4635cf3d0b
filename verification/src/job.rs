//! The persisted job row and its mathematical model.

use crate::status::JobStatus;
use vstd::prelude::*;

verus! {

/// Ghost model of one job row: strings become character sequences and
/// machine integers become unbounded integers. All store contracts and the
/// queue laws are stated over this model.
pub ghost struct JobModel {
    pub id: int,
    pub kind: Seq<char>,
    pub status: JobStatus,
    pub title: Option<Seq<char>>,
    pub idempotency_key: Option<Seq<char>>,
    pub payload: Option<Seq<char>>,
    pub result_json: Option<Seq<char>>,
    pub progress: int,
    pub retry_count: int,
    pub max_retries: int,
    pub last_error: Option<Seq<char>>,
    pub worker_id: Option<Seq<char>>,
    pub leased_until: Option<int>,
    pub available_at: Option<int>,
    pub started_at: Option<int>,
    pub completed_at: Option<int>,
    pub created_at: int,
    pub updated_at: int,
}

impl JobModel {
    /// Row-level invariant, maintained by every store operation.
    ///
    /// A processing row always carries its lease; a row that is not
    /// processing carries none. `completed_at` is stamped exactly on the
    /// transitions into the terminal statuses. Active rows always have a
    /// retry budget left, which is what makes them claimable at most
    /// `max_retries` times.
    pub open spec fn wf(self) -> bool {
        &&& self.id >= 1
        &&& 0 <= self.progress <= 100
        &&& 0 <= self.retry_count <= self.max_retries
        &&& 1 <= self.max_retries <= crate::store::MAX_RETRY_LIMIT
        &&& (self.status == JobStatus::Processing <==> self.worker_id is Some)
        &&& (self.status == JobStatus::Processing <==> self.leased_until is Some)
        &&& (self.status.is_terminal() <==> self.completed_at is Some)
        &&& (self.status.is_active() ==> self.retry_count < self.max_retries)
    }

    /// Whether a worker may claim this row at time `now`: it must be in a
    /// claimable status, be available (a missing `available_at` counts as
    /// available immediately), and still have retries left.
    pub open spec fn eligible(self, now: int) -> bool {
        &&& self.status.is_claimable()
        &&& match self.available_at {
            Some(t) => t <= now,
            None => true,
        }
        &&& self.retry_count < self.max_retries
    }
}

/// One job row, as persisted: a unit of work with its claim, retry and
/// lifecycle bookkeeping.
pub struct Job {
    pub id: i64,
    pub kind: String,
    pub status: JobStatus,
    pub title: Option<String>,
    pub idempotency_key: Option<String>,
    pub payload: Option<String>,
    pub result_json: Option<String>,
    pub progress: i64,
    pub retry_count: i64,
    pub max_retries: i64,
    pub last_error: Option<String>,
    pub worker_id: Option<String>,
    pub leased_until: Option<i64>,
    pub available_at: Option<i64>,
    pub started_at: Option<i64>,
    pub completed_at: Option<i64>,
    pub created_at: i64,
    pub updated_at: i64,
}

/// Maps an optional machine integer into the model.
pub open spec fn opt_int(o: Option<i64>) -> Option<int> {
    match o {
        Some(v) => Some(v as int),
        None => None,
    }
}

impl View for Job {
    type V = JobModel;

    open spec fn view(&self) -> JobModel {
        JobModel {
            id: self.id as int,
            kind: self.kind@,
            status: self.status,
            title: self.title.deep_view(),
            idempotency_key: self.idempotency_key.deep_view(),
            payload: self.payload.deep_view(),
            result_json: self.result_json.deep_view(),
            progress: self.progress as int,
            retry_count: self.retry_count as int,
            max_retries: self.max_retries as int,
            last_error: self.last_error.deep_view(),
            worker_id: self.worker_id.deep_view(),
            leased_until: opt_int(self.leased_until),
            available_at: opt_int(self.available_at),
            started_at: opt_int(self.started_at),
            completed_at: opt_int(self.completed_at),
            created_at: self.created_at as int,
            updated_at: self.updated_at as int,
        }
    }
}

impl DeepView for Job {
    type V = JobModel;

    open spec fn deep_view(&self) -> JobModel {
        self.view()
    }
}

/// Clones an optional string, keeping the value.
pub fn clone_opt_string(s: &Option<String>) -> (r: Option<String>)
    ensures
        r == *s,
{
    match s {
        Some(v) => Some(v.clone()),
        None => None,
    }
}

impl Clone for Job {
    /// A clone denotes the same row.
    fn clone(&self) -> (r: Self)
        ensures
            r@ == self@,
    {
        Job {
            id: self.id,
            kind: self.kind.clone(),
            status: self.status,
            title: clone_opt_string(&self.title),
            idempotency_key: clone_opt_string(&self.idempotency_key),
            payload: clone_opt_string(&self.payload),
            result_json: clone_opt_string(&self.result_json),
            progress: self.progress,
            retry_count: self.retry_count,
            max_retries: self.max_retries,
            last_error: clone_opt_string(&self.last_error),
            worker_id: clone_opt_string(&self.worker_id),
            leased_until: self.leased_until,
            available_at: self.available_at,
            started_at: self.started_at,
            completed_at: self.completed_at,
            created_at: self.created_at,
            updated_at: self.updated_at,
        }
    }
}

/// The slice of a job row handed back to an enqueueing caller.
#[derive(Debug)]
pub struct JobResponse {
    pub id: i64,
    pub status: JobStatus,
    pub kind: String,
}

impl JobResponse {
    /// Projects a row to the response triple.
    pub fn from_job(job: &Job) -> (r: Self)
        ensures
            r.id == job.id,
            r.status == job@.status,
            r.kind@ == job@.kind,
    {
        JobResponse { id: job.id, status: job.status, kind: job.kind.clone() }
    }
}

/// What a worker learns about the row it claimed: enough to dispatch and to
/// finalize, copied out of the row at selection time.
pub struct ClaimedJob {
    pub id: i64,
    pub kind: String,
    pub title: Option<String>,
    pub payload: Option<String>,
    pub retry_count: i64,
    pub max_retries: i64,
}

} // verus!
