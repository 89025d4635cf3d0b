//! A crash-tolerant job queue: a single table of persisted job rows consumed
//! by worker processes with at-least-once execution, lease-based exclusivity,
//! exponential backoff retries, idempotent submission, and stale-job recovery.
//!
//! The queue state lives in [`store::JobStore`]; every mutation is specified
//! against a ghost model of the job table, so the claim protocol, the retry
//! state machine and the history/active split are machine-checked.

use vstd::prelude::*;

pub mod errors;
pub mod events;
pub mod ingest;
pub mod job;
pub mod laws;
pub mod library;
pub mod lyrics;
pub mod media;
pub mod numfmt;
pub mod paths;
pub mod payload;
pub mod schema;
pub mod settings;
pub mod status;
pub mod store;
pub mod strutil;
pub mod types;
pub mod urlkit;
pub mod worker;

verus! {

/// Default number of attempts a job gets before it is failed for good.
pub const DEFAULT_MAX_RETRIES: i64 = 3;

} // verus!
