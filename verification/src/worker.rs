//! Worker-runtime decisions: kind dispatch, the interpretation of the
//! external helper's reply, finalization of a processed job, the sweep
//! timers of the maintenance loop, cache-expiry selection, the legacy
//! lyrics backfill, and the liveness snapshot.

use crate::errors::WorkerError;
use crate::events::{publish_job_event, publish_song_event, EventBus};
use crate::job::ClaimedJob;
use crate::numfmt::{dec_digits, i64_to_string};
use crate::payload::{encode_lyrics_payload, lyrics_payload_of, song_id_in_payload};
use crate::status::JobStatus;
use crate::store::{
    spec_complete, spec_enqueue, spec_fail_or_retry, JobStore, StoreModel, MAX_NOW,
};
use crate::strutil::{str_eq, string_push_char};
use crate::urlkit::{ascii_lower, lower_seq};
use vstd::prelude::*;
use vstd::string::StringExecFns;

verus! {

/// Cadence of the stale-lease reclamation sweep, in seconds.
pub const REQUEUE_SWEEP_SECONDS: i64 = 15;

/// Cadence of the cached-media cleanup sweep, in seconds.
pub const CLEANUP_SWEEP_SECONDS: i64 = 600;

/// Cadence of the legacy lyrics backfill sweep, in seconds.
pub const BACKFILL_SWEEP_SECONDS: i64 = 60;

/// How long a cached media file may sit unused before the cleanup sweep
/// removes it, in seconds.
pub const CACHE_TTL_SECONDS: i64 = 3600;

/// Seconds the run loop sleeps when no job was available.
pub const IDLE_SLEEP_SECONDS: u64 = 2;

/// Seconds the run loop sleeps after an unexpected error.
pub const ERROR_SLEEP_SECONDS: u64 = 5;

/// Seconds between lease renewals of the heartbeat loop.
pub const HEARTBEAT_INTERVAL_SECONDS: u64 = 60;

/// Most candidates one backfill sweep may touch.
pub const BACKFILL_BATCH_LIMIT: usize = 25;

/// The handler a job kind selects.
#[derive(Debug, PartialEq, Eq, Structural)]
pub enum JobAction {
    /// Download and register one piece of media.
    IngestAudio,
    /// Research lyrics for one entity.
    GenerateLyrics,
    /// The retired self-update request; answered with a fixed notice.
    MaintenanceUpdateYtdlp,
    /// No handler: the job fails with an unknown-kind error.
    Unknown,
}

/// The kind-to-handler table.
pub open spec fn spec_job_action(kind: Seq<char>) -> JobAction {
    if kind == "ingest_audio"@ {
        JobAction::IngestAudio
    } else if kind == "generate_lyrics"@ {
        JobAction::GenerateLyrics
    } else if kind == "maintenance_update_ytdlp"@ {
        JobAction::MaintenanceUpdateYtdlp
    } else {
        JobAction::Unknown
    }
}

/// Maps a job's declared kind to its handler; an unknown kind is itself a
/// failure, decided by the caller on `Unknown`.
pub fn job_action(kind: &str) -> (r: JobAction)
    ensures
        r == spec_job_action(kind@),
{
    if str_eq(kind, "ingest_audio") {
        JobAction::IngestAudio
    } else if str_eq(kind, "generate_lyrics") {
        JobAction::GenerateLyrics
    } else if str_eq(kind, "maintenance_update_ytdlp") {
        JobAction::MaintenanceUpdateYtdlp
    } else {
        JobAction::Unknown
    }
}

/// The failure message for a job of an unknown kind.
pub fn unknown_kind_error(kind: &str) -> (r: WorkerError)
    ensures
        (r matches WorkerError::Payload(m) && m@ == "Unknown job type '"@ + kind@ + "'"@),
{
    let mut m = String::from_str("Unknown job type '");
    m.append(kind);
    string_push_char(&mut m, '\'');
    proof {
        reveal_strlit("'");
        assert(m@ =~= "Unknown job type '"@ + kind@ + "'"@);
    }
    WorkerError::Payload(m)
}

/// What a job handler produces on success: the result payload to persist,
/// an optional refreshed title, and an optional domain event.
pub struct JobWorkResult {
    pub result_json: Option<String>,
    pub updated_title: Option<String>,
    pub song_event: Option<(String, i64)>,
}

/// One external helper reply, already decoded from its single JSON object:
/// `ok`, `error` and whether a `data` object was present.
pub struct BridgeReply {
    pub ok: Option<bool>,
    pub error: Option<String>,
    pub has_data: bool,
}

/// How a helper invocation is judged (the helper speaks one JSON object on
/// stdout): a dead process, empty stdout, unparseable output or an explicit
/// `ok=false` are all failures; otherwise the reply stands.
pub open spec fn spec_bridge_verdict(
    exit_success: bool,
    stdout_empty: bool,
    reply: Option<BridgeReply>,
) -> bool {
    &&& !stdout_empty
    &&& reply is Some
    &&& exit_success
    &&& reply->0.ok != Some(false)
}

/// Judges one helper invocation. A `true` verdict means the reply may be
/// used; on `false` the caller reports a bridge failure.
pub fn bridge_verdict(exit_success: bool, stdout_empty: bool, reply: &Option<BridgeReply>) -> (r:
    bool)
    ensures
        r == spec_bridge_verdict(exit_success, stdout_empty, *reply),
{
    if stdout_empty {
        return false;
    }
    match reply {
        None => false,
        Some(rep) => exit_success && match rep.ok {
            Some(false) => false,
            _ => true,
        },
    }
}

/// The fixed answer to the retired self-update job kind.
pub fn maintenance_update_notice() -> (r: String)
    ensures
        r@
            == "{\"error\":\"yt-dlp self-update is not supported; update LyricVault to get newer yt-dlp.\",\"status\":\"unsupported\"}"@,
{
    String::from_str(
        "{\"error\":\"yt-dlp self-update is not supported; update LyricVault to get newer yt-dlp.\",\"status\":\"unsupported\"}",
    )
}

/// Finalizes one processed job: on success the row completes; on failure it
/// enters the retry state machine. Publishes the matching `"job"` event and
/// any domain event the handler reported. Returns the status announced, or
/// `None` when another worker had reclaimed the row and nothing was done.
pub fn finalize_job(
    store: &mut JobStore,
    bus: &EventBus,
    job: &ClaimedJob,
    worker_id: &str,
    outcome: Result<JobWorkResult, WorkerError>,
    now: i64,
) -> (r: Option<JobStatus>)
    requires
        old(store).wf(),
        0 <= now <= MAX_NOW,
    ensures
        final(store).wf(),
        match outcome {
            Ok(work) => {
                let (m2, ok) = spec_complete(
                    old(store)@,
                    job.id as int,
                    worker_id@,
                    work.result_json.deep_view(),
                    work.updated_title.deep_view(),
                    now as int,
                );
                final(store)@ == m2 && r == if ok {
                    Some(JobStatus::Completed)
                } else {
                    None
                }
            },
            Err(e) => {
                let (m2, st) = spec_fail_or_retry(
                    old(store)@,
                    job.id as int,
                    worker_id@,
                    e.rendered(),
                    now as int,
                );
                final(store)@ == m2 && r == st
            },
        },
{
    match outcome {
        Ok(work) => {
            let event_title: Option<String> = match (&work.updated_title, &job.title) {
                (Some(t), _) => Some(t.clone()),
                (None, Some(t)) => Some(t.clone()),
                (None, None) => None,
            };
            let done = store.complete(
                job.id,
                worker_id,
                work.result_json,
                work.updated_title,
                now,
            );
            if !done {
                return None;
            }
            publish_job_event(
                bus,
                job.id,
                job.kind.as_str(),
                JobStatus::Completed,
                match &event_title {
                    Some(t) => Some(t.as_str()),
                    None => None,
                },
            );
            if let Some((action, song_id)) = work.song_event {
                publish_song_event(bus, action.as_str(), song_id);
            }
            Some(JobStatus::Completed)
        },
        Err(e) => {
            let message = e.message();
            let st = store.fail_or_retry(job.id, worker_id, message, now);
            match st {
                Some(next) => {
                    publish_job_event(
                        bus,
                        job.id,
                        job.kind.as_str(),
                        next,
                        match &job.title {
                            Some(t) => Some(t.as_str()),
                            None => None,
                        },
                    );
                    Some(next)
                },
                None => None,
            }
        },
    }
}

/// Which maintenance sweeps are due at `now`, given when each last ran.
pub fn due_sweeps(last_requeue: i64, last_cleanup: i64, last_backfill: i64, now: i64) -> (r: (
    bool,
    bool,
    bool,
))
    requires
        0 <= now <= MAX_NOW,
        -1 <= last_requeue <= MAX_NOW,
        -1 <= last_cleanup <= MAX_NOW,
        -1 <= last_backfill <= MAX_NOW,
    ensures
        r.0 == (now - last_requeue >= REQUEUE_SWEEP_SECONDS),
        r.1 == (now - last_cleanup >= CLEANUP_SWEEP_SECONDS),
        r.2 == (now - last_backfill >= BACKFILL_SWEEP_SECONDS),
{
    (
        now - last_requeue >= REQUEUE_SWEEP_SECONDS,
        now - last_cleanup >= CLEANUP_SWEEP_SECONDS,
        now - last_backfill >= BACKFILL_SWEEP_SECONDS,
    )
}

/// Outcome of one pass of the run loop.
pub enum LoopOutcome {
    /// A job was claimed and finished; loop again at once.
    Worked,
    /// Nothing was eligible; sleep briefly.
    Idle,
    /// An unexpected error; back off longer as a circuit breaker.
    Errored,
}

/// How long the run loop sleeps after one pass, in seconds.
pub fn next_delay_seconds(outcome: &LoopOutcome) -> (r: u64)
    ensures
        r == (match outcome {
            LoopOutcome::Worked => 0u64,
            LoopOutcome::Idle => IDLE_SLEEP_SECONDS,
            LoopOutcome::Errored => ERROR_SLEEP_SECONDS,
        }),
{
    match outcome {
        LoopOutcome::Worked => 0,
        LoopOutcome::Idle => IDLE_SLEEP_SECONDS,
        LoopOutcome::Errored => ERROR_SLEEP_SECONDS,
    }
}

/// The worker's liveness snapshot, kept purely for observability.
pub struct WorkerStatus {
    pub running: bool,
    pub worker_id: String,
    pub active_job_id: Option<i64>,
    pub last_heartbeat_at: Option<String>,
}

/// The worker identity string: host and process identity.
pub fn worker_id_for(host: &str, pid: u64) -> (r: String)
    ensures
        r@ == "worker_"@ + host@ + "_"@ + dec_digits(pid as nat),
{
    let mut out = String::from_str("worker_");
    out.append(host);
    string_push_char(&mut out, '_');
    let digits = crate::numfmt::u64_to_string(pid);
    out.append(digits.as_str());
    proof {
        reveal_strlit("_");
        assert(out@ =~= "worker_"@ + host@ + "_"@ + dec_digits(pid as nat));
    }
    out
}

/// One file found in the managed cache directory, as the cleanup sweep
/// judges it: its path, whether it is a regular file, its extension (if
/// any) and its modification time.
pub struct CachedFile {
    pub path: String,
    pub is_file: bool,
    pub extension: Option<String>,
    pub modified: Option<i64>,
}

/// Ghost model of one cache entry.
pub ghost struct CachedFileModel {
    pub path: Seq<char>,
    pub is_file: bool,
    pub extension: Option<Seq<char>>,
    pub modified: Option<int>,
}

impl View for CachedFile {
    type V = CachedFileModel;

    open spec fn view(&self) -> CachedFileModel {
        CachedFileModel {
            path: self.path@,
            is_file: self.is_file,
            extension: self.extension.deep_view(),
            modified: crate::job::opt_int(self.modified),
        }
    }
}

impl DeepView for CachedFile {
    type V = CachedFileModel;

    open spec fn deep_view(&self) -> CachedFileModel {
        self.view()
    }
}

/// The media extensions the cache sweep recognizes (lowercased).
pub open spec fn spec_is_media_extension(ext: Seq<char>) -> bool {
    ext == "mp3"@ || ext == "m4a"@ || ext == "wav"@ || ext == "flac"@ || ext == "ogg"@ || ext
        == "aac"@ || ext == "opus"@ || ext == "webm"@ || ext == "mp4"@
}

/// Whether a (lowercased) extension names a media format the cache holds.
pub fn is_media_extension(ext: &str) -> (r: bool)
    ensures
        r == spec_is_media_extension(ext@),
{
    str_eq(ext, "mp3") || str_eq(ext, "m4a") || str_eq(ext, "wav") || str_eq(ext, "flac") || str_eq(
        ext,
        "ogg",
    ) || str_eq(ext, "aac") || str_eq(ext, "opus") || str_eq(ext, "webm") || str_eq(ext, "mp4")
}

/// Whether the cleanup sweep removes this entry at `now`: a regular file
/// with a recognized media extension whose modification time lies at least
/// the TTL in the past. A file without a known modification time is kept.
pub open spec fn spec_cache_expired(f: CachedFileModel, now: int) -> bool {
    &&& f.is_file
    &&& match f.extension {
        Some(e) => spec_is_media_extension(lower_seq(e)),
        None => false,
    }
    &&& match f.modified {
        Some(t) => t <= now - CACHE_TTL_SECONDS,
        None => false,
    }
}

/// Selects the cache entries the sweep deletes: exactly those expired at
/// `now`, in the order given.
pub fn cleanup_expired_media(files: &Vec<CachedFile>, now: i64) -> (r: Vec<String>)
    requires
        0 <= now <= MAX_NOW,
    ensures
        r.deep_view() == files.deep_view().filter(|f: CachedFileModel| spec_cache_expired(f, now as int)).map_values(
            |f: CachedFileModel| f.path,
        ),
{
    let n = files.len();
    let mut out: Vec<String> = Vec::new();
    let mut i: usize = 0;
    proof {
        reveal(Seq::filter);
        assert(files.deep_view().take(0) =~= Seq::<CachedFileModel>::empty());
        assert(out.deep_view() =~= files.deep_view().take(0).filter(
            |f: CachedFileModel| spec_cache_expired(f, now as int),
        ).map_values(|f: CachedFileModel| f.path));
    }
    while i < n
        invariant
            0 <= i <= n,
            0 <= now <= MAX_NOW,
            n == files.deep_view().len(),
            n == files@.len(),
            out.deep_view() == files.deep_view().take(i as int).filter(
                |f: CachedFileModel| spec_cache_expired(f, now as int),
            ).map_values(|f: CachedFileModel| f.path),
        decreases n - i,
    {
        let ghost pre = out.deep_view();
        let f = &files[i];
        let expired = f.is_file && (match &f.extension {
            Some(e) => {
                let lowered = ascii_lower(e.as_str());
                is_media_extension(lowered.as_str())
            },
            None => false,
        }) && (match f.modified {
            Some(t) => t <= now - CACHE_TTL_SECONDS,
            None => false,
        });
        proof {
            assert(expired == spec_cache_expired(files.deep_view()[i as int], now as int));
        }
        if expired {
            out.push(f.path.clone());
        }
        proof {
            reveal(Seq::filter);
            let pred = |f: CachedFileModel| spec_cache_expired(f, now as int);
            assert(files.deep_view().take(i as int + 1).drop_last() =~= files.deep_view().take(
                i as int,
            ));
            assert(files.deep_view().take(i as int + 1).last() == files.deep_view()[i as int]);
            if expired {
                assert(out.deep_view() =~= pre.push(files.deep_view()[i as int].path));
                assert(out.deep_view() =~= files.deep_view().take(i as int).filter(pred).push(
                    files.deep_view()[i as int],
                ).map_values(|f: CachedFileModel| f.path));
            }
        }
        i += 1;
    }
    proof {
        assert(files.deep_view().take(n as int) =~= files.deep_view());
    }
    out
}

/// A song row offered to the backfill sweep: its identity and its stored
/// lyrics state.
pub struct SongCandidate {
    pub id: i64,
    pub title: String,
    pub artist: String,
    pub file_path: Option<String>,
    pub lyrics: Option<String>,
}

/// A sequence of machine integers as model integers.
pub open spec fn ids_model(s: Seq<i64>) -> Seq<int> {
    s.map_values(|x: i64| x as int)
}

/// The entity identifiers of live lyrics jobs: every active row of the
/// lyrics kind whose payload names an entity, in insertion order.
pub open spec fn active_lyrics_ids(jobs: Seq<crate::job::JobModel>) -> Seq<int>
    decreases jobs.len(),
{
    if jobs.len() == 0 {
        Seq::empty()
    } else {
        let rest = active_lyrics_ids(jobs.drop_last());
        let last = jobs.last();
        if last.kind == "generate_lyrics"@ && last.status.is_active() && last.payload is Some
            && song_id_in_payload(last.payload->0) is Some {
            rest.push(song_id_in_payload(last.payload->0)->0)
        } else {
            rest
        }
    }
}

/// Collects the entity identifiers of live lyrics jobs from the store.
pub fn collect_active_lyrics_ids(store: &JobStore) -> (r: Vec<i64>)
    requires
        store.wf(),
    ensures
        ids_model(r@) == active_lyrics_ids(store@.jobs),
{
    let rows = store.rows();
    let n = rows.len();
    let mut out: Vec<i64> = Vec::new();
    let mut i: usize = 0;
    proof {
        assert(store@.jobs.take(0) =~= Seq::<crate::job::JobModel>::empty());
        assert(ids_model(out@) =~= active_lyrics_ids(store@.jobs.take(0)));
    }
    while i < n
        invariant
            store.wf(),
            0 <= i <= n,
            n == store@.jobs.len(),
            n == rows@.len(),
            rows.deep_view() == store@.jobs,
            ids_model(out@) == active_lyrics_ids(store@.jobs.take(i as int)),
        decreases n - i,
    {
        let ghost pre = out@;
        let row = &rows[i];
        proof {
            assert(rows.deep_view()[i as int] == store@.jobs[i as int]);
        }
        let relevant = str_eq(row.kind.as_str(), "generate_lyrics") && (match row.status {
            JobStatus::Completed => false,
            JobStatus::Failed => false,
            _ => true,
        });
        if relevant {
            if let Some(p) = &row.payload {
                if let Some(song_id) = crate::payload::payload_song_id(p.as_str()) {
                    out.push(song_id);
                }
            }
        }
        proof {
            assert(store@.jobs.take(i as int + 1).drop_last() =~= store@.jobs.take(i as int));
            assert(store@.jobs.take(i as int + 1).last() == store@.jobs[i as int]);
            assert(ids_model(out@) =~= active_lyrics_ids(store@.jobs.take(i as int + 1)));
        }
        i += 1;
    }
    proof {
        assert(store@.jobs.take(n as int) =~= store@.jobs);
    }
    out
}

/// Membership in a vector of identifiers.
fn contains_id(ids: &Vec<i64>, id: i64) -> (r: bool)
    ensures
        r == ids_model(ids@).contains(id as int),
{
    let n = ids.len();
    let mut i: usize = 0;
    while i < n
        invariant
            0 <= i <= n,
            n == ids@.len(),
            forall|k: int| 0 <= k < i ==> ids_model(ids@)[k] != id as int,
        decreases n - i,
    {
        if ids[i] == id {
            proof {
                assert(ids_model(ids@)[i as int] == id as int);
            }
            return true;
        }
        i += 1;
    }
    proof {
        if ids_model(ids@).contains(id as int) {
            let k = choose|k: int|
                0 <= k < ids_model(ids@).len() && ids_model(ids@)[k] == id as int;
            assert(ids_model(ids@)[k] != id as int);
        }
    }
    false
}

/// The idempotency key of a backfill job for one entity.
pub open spec fn legacy_key_of(song_id: int) -> Seq<char> {
    "lyrics_legacy_migrate_"@ + dec_digits(song_id as nat)
}

/// The display title of a backfill job.
pub open spec fn legacy_title_of(artist: Seq<char>, title: Seq<char>) -> Seq<char> {
    "Lyrics Migration: "@ + artist + " - "@ + title
}


/// Ghost model of one backfill candidate.
pub ghost struct CandidateModel {
    pub id: int,
    pub title: Seq<char>,
    pub artist: Seq<char>,
    pub file_path: Option<Seq<char>>,
    pub lyrics: Option<Seq<char>>,
}

impl View for SongCandidate {
    type V = CandidateModel;

    open spec fn view(&self) -> CandidateModel {
        CandidateModel {
            id: self.id as int,
            title: self.title@,
            artist: self.artist@,
            file_path: self.file_path.deep_view(),
            lyrics: self.lyrics.deep_view(),
        }
    }
}

impl DeepView for SongCandidate {
    type V = CandidateModel;

    open spec fn deep_view(&self) -> CandidateModel {
        self.view()
    }
}

/// What the backfill sweep does with one candidate: an entity with a live
/// lyrics job is skipped; stored text that already validates as synced
/// lyrics is only marked so (the returned identifier); anything else gets a
/// remediation job enqueued under the entity's backfill key, deduplicated
/// by that key.
pub open spec fn spec_backfill_step(
    m: StoreModel,
    c: CandidateModel,
    active: Seq<int>,
    now: int,
) -> (StoreModel, Option<int>) {
    if active.contains(c.id) {
        (m, None)
    } else if c.lyrics is Some && crate::lyrics::spec_validate_lrc(c.lyrics->0) {
        (m, Some(c.id))
    } else {
        let (m2, j) = spec_enqueue(
            m,
            "generate_lyrics"@,
            legacy_key_of(c.id),
            Some(lyrics_payload_of(c.id, c.title, c.artist, c.file_path)),
            Some(legacy_title_of(c.artist, c.title)),
            false,
            now,
        );
        (m2, None)
    }
}

/// The backfill sweep folded over a batch of candidates.
pub open spec fn spec_backfill(
    m: StoreModel,
    cs: Seq<CandidateModel>,
    active: Seq<int>,
    now: int,
) -> (StoreModel, Seq<int>)
    decreases cs.len(),
{
    if cs.len() == 0 {
        (m, Seq::empty())
    } else {
        let (m1, out1) = spec_backfill(m, cs.drop_last(), active, now);
        let (m2, extra) = spec_backfill_step(m1, cs.last(), active, now);
        (
            m2,
            match extra {
                Some(id) => out1.push(id),
                None => out1,
            },
        )
    }
}

/// The backfill fold preserves the store invariant and grows identifiers by
/// at most one per candidate.
pub proof fn lemma_backfill_wf(m: StoreModel, cs: Seq<CandidateModel>, active: Seq<int>, now: int)
    requires
        crate::store::store_wf(m),
        1 <= now,
    ensures
        crate::store::store_wf(spec_backfill(m, cs, active, now).0),
        spec_backfill(m, cs, active, now).0.next_id <= m.next_id + cs.len(),
    decreases cs.len(),
{
    if cs.len() > 0 {
        lemma_backfill_wf(m, cs.drop_last(), active, now);
        let (m1, out1) = spec_backfill(m, cs.drop_last(), active, now);
        let c = cs.last();
        if !active.contains(c.id) && !(c.lyrics is Some && crate::lyrics::spec_validate_lrc(
            c.lyrics->0,
        )) {
            crate::store::lemma_enqueue_wf(
                m1,
                "generate_lyrics"@,
                legacy_key_of(c.id),
                Some(lyrics_payload_of(c.id, c.title, c.artist, c.file_path)),
                Some(legacy_title_of(c.artist, c.title)),
                false,
                now,
            );
        }
    }
}

/// The legacy backfill sweep: in strict mode, walks a bounded batch of
/// songs whose stored lyrics look unsynced and, per candidate, either marks
/// text that already validates as synced (returning those identifiers for
/// the caller to persist), or enqueues one deduplicated remediation job.
/// Entities with a live lyrics job are left alone. Outside strict mode the
/// sweep does nothing.
pub fn queue_legacy_unsynced_lyrics(
    store: &mut JobStore,
    candidates: &Vec<SongCandidate>,
    strict: bool,
    now: i64,
) -> (r: Vec<i64>)
    requires
        old(store).wf(),
        1 <= now <= MAX_NOW,
        old(store)@.next_id + candidates.deep_view().len() < i64::MAX as int,
        forall|k: int|
            0 <= k < candidates.deep_view().len() ==> (#[trigger] candidates.deep_view()[k]).id
                >= 0,
    ensures
        final(store).wf(),
        !strict ==> final(store)@ == old(store)@ && r@.len() == 0,
        strict ==> ({
            let (m2, out) = spec_backfill(
                old(store)@,
                candidates.deep_view(),
                active_lyrics_ids(old(store)@.jobs),
                now as int,
            );
            final(store)@ == m2 && ids_model(r@) == out
        }),
{
    if !strict {
        return Vec::new();
    }
    let active = collect_active_lyrics_ids(store);
    let n = candidates.len();
    let mut out: Vec<i64> = Vec::new();
    let mut i: usize = 0;
    proof {
        assert(candidates.deep_view().take(0) =~= Seq::<CandidateModel>::empty());
        assert(ids_model(out@) =~= Seq::<int>::empty());
    }
    while i < n
        invariant
            store.wf(),
            0 <= i <= n,
            1 <= now <= MAX_NOW,
            n == candidates.deep_view().len(),
            n == candidates@.len(),
            old(store)@.next_id + candidates.deep_view().len() < i64::MAX as int,
            forall|k: int|
                0 <= k < candidates.deep_view().len() ==> (#[trigger] candidates.deep_view()[k]).id
                    >= 0,
            ids_model(active@) == active_lyrics_ids(old(store)@.jobs),
            store@.next_id <= old(store)@.next_id + i,
            (store@, ids_model(out@)) == spec_backfill(
                old(store)@,
                candidates.deep_view().take(i as int),
                active_lyrics_ids(old(store)@.jobs),
                now as int,
            ),
        decreases n - i,
    {
        let ghost cs = candidates.deep_view();
        let ghost act = active_lyrics_ids(old(store)@.jobs);
        proof {
            assert(cs.take(i as int + 1).drop_last() =~= cs.take(i as int));
            assert(cs.take(i as int + 1).last() == cs[i as int]);
        }
        let c = &candidates[i];
        proof {
            assert(c@ == cs[i as int]);
        }
        if contains_id(&active, c.id) {
            proof {
                assert(spec_backfill_step(store@, cs[i as int], act, now as int) == (
                    store@,
                    None::<int>,
                ));
            }
        } else {
            let already_synced = match &c.lyrics {
                Some(text) => crate::lyrics::validate_lrc(text.as_str()),
                None => false,
            };
            if already_synced {
                out.push(c.id);
            } else {
                let mut key = String::from_str("lyrics_legacy_migrate_");
                let id_str = i64_to_string(c.id);
                key.append(id_str.as_str());
                proof {
                    assert(key@ =~= legacy_key_of(c@.id));
                }
                let mut title = String::from_str("Lyrics Migration: ");
                title.append(c.artist.as_str());
                title.append(" - ");
                title.append(c.title.as_str());
                proof {
                    assert(title@ =~= legacy_title_of(c@.artist, c@.title));
                }
                let payload = encode_lyrics_payload(
                    c.id,
                    c.title.as_str(),
                    c.artist.as_str(),
                    match &c.file_path {
                        Some(p) => Some(p.as_str()),
                        None => None,
                    },
                );
                store.enqueue(
                    String::from_str("generate_lyrics"),
                    key,
                    Some(payload),
                    Some(title),
                    false,
                    now,
                );
            }
        }
        i += 1;
    }
    proof {
        assert(candidates.deep_view().take(n as int) =~= candidates.deep_view());
    }
    out
}


/// The liveness snapshot the status surface reports.
pub fn worker_status_snapshot(
    running: bool,
    worker_id: &str,
    active_job_id: Option<i64>,
    last_heartbeat_at: Option<String>,
) -> (r: WorkerStatus)
    ensures
        r.running == running,
        r.worker_id@ == worker_id@,
        r.active_job_id == active_job_id,
        r.last_heartbeat_at == last_heartbeat_at,
{
    WorkerStatus {
        running,
        worker_id: worker_id.to_owned(),
        active_job_id,
        last_heartbeat_at,
    }
}

/// The fixed work result of the retired self-update kind: the notice as the
/// result payload, the title kept, no domain event.
pub fn maintenance_work_result(job: &ClaimedJob) -> (r: JobWorkResult)
    ensures
        (r.result_json matches Some(v) && v@
            == "{\"error\":\"yt-dlp self-update is not supported; update LyricVault to get newer yt-dlp.\",\"status\":\"unsupported\"}"@),
        r.updated_title == job.title,
        r.song_event is None,
{
    JobWorkResult {
        result_json: Some(maintenance_update_notice()),
        updated_title: crate::job::clone_opt_string(&job.title),
        song_event: None,
    }
}

} // verus!
