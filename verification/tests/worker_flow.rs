//! The worker runtime's decisions, and the end-to-end event sequence of a
//! job that keeps failing.

use lyricvault::errors::WorkerError;
use lyricvault::events::{try_recv_event, EventBus, EventData};
use lyricvault::ingest::{ingest_start, IngestStartArgs};
use lyricvault::job::ClaimedJob;
use lyricvault::status::JobStatus;
use lyricvault::store::JobStore;
use lyricvault::worker::{
    bridge_verdict, cleanup_expired_media, due_sweeps, finalize_job, job_action,
    maintenance_work_result, next_delay_seconds, queue_legacy_unsynced_lyrics, worker_id_for,
    worker_status_snapshot, BridgeReply, CachedFile, JobAction, JobWorkResult, LoopOutcome,
    SongCandidate,
};

#[test]
fn job_kind_dispatch_table() {
    assert_eq!(job_action("ingest_audio"), JobAction::IngestAudio);
    assert_eq!(job_action("generate_lyrics"), JobAction::GenerateLyrics);
    assert_eq!(job_action("maintenance_update_ytdlp"), JobAction::MaintenanceUpdateYtdlp);
    assert_eq!(job_action("download"), JobAction::Unknown);
    assert_eq!(job_action(""), JobAction::Unknown);
}

#[test]
fn bridge_verdict_rules() {
    let ok_reply = Some(BridgeReply { ok: Some(true), error: None, has_data: true });
    assert!(bridge_verdict(true, false, &ok_reply));
    // Empty stdout, a dead process, unparseable output or ok=false all fail.
    assert!(!bridge_verdict(true, true, &ok_reply));
    assert!(!bridge_verdict(false, false, &ok_reply));
    assert!(!bridge_verdict(true, false, &None));
    let refused = Some(BridgeReply {
        ok: Some(false),
        error: Some("nope".to_string()),
        has_data: false,
    });
    assert!(!bridge_verdict(true, false, &refused));
    // A reply without an explicit ok field stands if the process succeeded.
    let silent = Some(BridgeReply { ok: None, error: None, has_data: true });
    assert!(bridge_verdict(true, false, &silent));
}

#[test]
fn sweep_timers_and_delays() {
    let (requeue, cleanup, backfill) = due_sweeps(0, 0, 0, 14);
    assert!(!requeue && !cleanup && !backfill);
    let (requeue, cleanup, backfill) = due_sweeps(0, 0, 0, 15);
    assert!(requeue && !cleanup && !backfill);
    let (requeue, cleanup, backfill) = due_sweeps(0, 0, 0, 60);
    assert!(requeue && !cleanup && backfill);
    let (requeue, cleanup, backfill) = due_sweeps(0, 0, 0, 600);
    assert!(requeue && cleanup && backfill);

    assert_eq!(next_delay_seconds(&LoopOutcome::Worked), 0);
    assert_eq!(next_delay_seconds(&LoopOutcome::Idle), 2);
    assert_eq!(next_delay_seconds(&LoopOutcome::Errored), 5);
}

#[test]
fn worker_identity_and_snapshot() {
    let id = worker_id_for("host", 4321);
    assert_eq!(id, "worker_host_4321");
    let st = worker_status_snapshot(true, &id, Some(7), Some("2024".to_string()));
    assert!(st.running);
    assert_eq!(st.worker_id, "worker_host_4321");
    assert_eq!(st.active_job_id, Some(7));
    assert_eq!(st.last_heartbeat_at.as_deref(), Some("2024"));
}

#[test]
fn maintenance_kind_answers_fixed_notice() {
    let job = ClaimedJob {
        id: 1,
        kind: "maintenance_update_ytdlp".to_string(),
        title: Some("update".to_string()),
        payload: None,
        retry_count: 0,
        max_retries: 3,
    };
    let work = maintenance_work_result(&job);
    let body = work.result_json.expect("result");
    assert!(body.contains("\"status\":\"unsupported\""));
    assert!(body.contains("yt-dlp self-update is not supported"));
    assert_eq!(work.updated_title.as_deref(), Some("update"));
    assert!(work.song_event.is_none());
}

#[test]
fn cleanup_selects_only_expired_media() {
    let files = vec![
        CachedFile {
            path: "/c/old.mp3".to_string(),
            is_file: true,
            extension: Some("MP3".to_string()),
            modified: Some(100),
        },
        CachedFile {
            path: "/c/new.mp3".to_string(),
            is_file: true,
            extension: Some("mp3".to_string()),
            modified: Some(3000),
        },
        CachedFile {
            path: "/c/notes.txt".to_string(),
            is_file: true,
            extension: Some("txt".to_string()),
            modified: Some(100),
        },
        CachedFile {
            path: "/c/dir.mp3".to_string(),
            is_file: false,
            extension: Some("mp3".to_string()),
            modified: Some(100),
        },
        CachedFile {
            path: "/c/unstamped.ogg".to_string(),
            is_file: true,
            extension: Some("ogg".to_string()),
            modified: None,
        },
    ];
    let doomed = cleanup_expired_media(&files, 4000);
    assert_eq!(doomed, vec!["/c/old.mp3".to_string()]);
}

#[test]
fn finalize_success_completes_and_announces() {
    let mut store = JobStore::new();
    let bus = EventBus::new(16);
    let mut rx = bus.subscribe();
    let resp = store.enqueue(
        "ingest_audio".to_string(),
        "k-done".to_string(),
        None,
        Some("original title".to_string()),
        false,
        10,
    );
    let claimed = store.claim_one("w1".to_string(), 11).expect("claim");
    let work = JobWorkResult {
        result_json: Some("{\"song_id\":5}".to_string()),
        updated_title: Some("finished title".to_string()),
        song_event: Some(("ingest_completed".to_string(), 5)),
    };
    let announced = finalize_job(&mut store, &bus, &claimed, "w1", Ok(work), 12);
    assert_eq!(announced, Some(JobStatus::Completed));
    let row = store.job_get(resp.id).expect("row");
    assert_eq!(row.status, JobStatus::Completed);
    assert_eq!(row.progress, 100);
    assert_eq!(row.title.as_deref(), Some("finished title"));
    assert_eq!(row.completed_at, Some(12));

    let job_event = try_recv_event(&mut rx).expect("job event");
    assert_eq!(job_event.event, "job");
    match job_event.data {
        EventData::Job { id, kind, status, title } => {
            assert_eq!(id, resp.id);
            assert_eq!(kind, "ingest_audio");
            assert_eq!(status, "completed");
            assert_eq!(title.as_deref(), Some("finished title"));
        }
        EventData::Song { .. } => panic!("expected a job event"),
    }
    let song_event = try_recv_event(&mut rx).expect("song event");
    assert_eq!(song_event.event, "song");
    match song_event.data {
        EventData::Song { action, song_ids } => {
            assert_eq!(action, "ingest_completed");
            assert_eq!(song_ids, vec![5]);
        }
        EventData::Job { .. } => panic!("expected a song event"),
    }
    assert!(try_recv_event(&mut rx).is_none());
}

#[test]
fn finalize_against_reclaimed_row_is_noop() {
    let mut store = JobStore::new();
    let bus = EventBus::new(16);
    let resp = store.enqueue(
        "ingest_audio".to_string(),
        "k-lost".to_string(),
        None,
        None,
        false,
        10,
    );
    let claimed = store.claim_one("w1".to_string(), 11).expect("claim");
    // The row goes stale and another worker claims it.
    store.reclaim_stale(11 + 300 + 91);
    assert!(store.claim_update(resp.id, "w2".to_string(), 500));
    let announced = finalize_job(
        &mut store,
        &bus,
        &claimed,
        "w1",
        Err(WorkerError::Bridge("too late".to_string())),
        600,
    );
    assert_eq!(announced, None, "the lost worker must not finalize");
    let row = store.job_get(resp.id).expect("row");
    assert_eq!(row.worker_id.as_deref(), Some("w2"));
    assert_eq!(row.retry_count, 0);
}

/// End to end: an enqueued download is claimed, fails three times, and the
/// event stream reports processing, retrying, processing, retrying,
/// processing, failed.
#[test]
fn end_to_end_three_failures_terminalize() {
    let mut store = JobStore::new();
    let bus = EventBus::new(16);
    let mut rx = bus.subscribe();
    let resp = store.enqueue(
        "download".to_string(),
        "k-e2e".to_string(),
        Some("{\"url\":\"https://example.com/x\"}".to_string()),
        None,
        false,
        1,
    );
    let mut now = 2;
    for _ in 0..3 {
        let claimed = store.claim_one("w".to_string(), now).expect("claim");
        assert_eq!(claimed.id, resp.id);
        lyricvault::events::publish_job_event(
            &bus,
            claimed.id,
            &claimed.kind,
            JobStatus::Processing,
            claimed.title.as_deref(),
        );
        // The dispatcher knows no "download" handler: the attempt fails.
        assert_eq!(job_action(&claimed.kind), JobAction::Unknown);
        let failure = lyricvault::worker::unknown_kind_error(&claimed.kind);
        finalize_job(&mut store, &bus, &claimed, "w", Err(failure), now);
        now += 10_000;
    }
    let mut seen: Vec<String> = Vec::new();
    while let Some(env) = try_recv_event(&mut rx) {
        match env.data {
            EventData::Job { status, .. } => seen.push(status),
            EventData::Song { .. } => panic!("no song events here"),
        }
    }
    assert_eq!(
        seen,
        vec!["processing", "retrying", "processing", "retrying", "processing", "failed"]
    );
    let row = store.job_get(resp.id).expect("row");
    assert_eq!(row.status, JobStatus::Failed);
    assert!(row.last_error.as_deref().unwrap().contains("Unknown job type 'download'"));
}

#[test]
fn backfill_marks_validated_and_enqueues_rest() {
    let mut store = JobStore::new();
    // One song already has a live lyrics job.
    let busy = lyricvault::ingest::queue_lyrics_job(&mut store, 7, "Artist", Some("Busy"), "/f", 1);
    assert_eq!(busy.status, JobStatus::Pending);
    let synced_text =
        "[00:01]a\n[00:02]b\n[00:03]c\n[00:04]d\n[00:05]e\n".to_string();
    let candidates = vec![
        SongCandidate {
            id: 7,
            title: "Busy".to_string(),
            artist: "Artist".to_string(),
            file_path: None,
            lyrics: Some("text".to_string()),
        },
        SongCandidate {
            id: 8,
            title: "Synced".to_string(),
            artist: "Artist".to_string(),
            file_path: None,
            lyrics: Some(synced_text),
        },
        SongCandidate {
            id: 9,
            title: "Plain".to_string(),
            artist: "Artist".to_string(),
            file_path: Some("/m/p.mp3".to_string()),
            lyrics: Some("just words".to_string()),
        },
    ];
    let mark = queue_legacy_unsynced_lyrics(&mut store, &candidates, true, 50);
    // Song 8's stored text already validates: only flag it.
    assert_eq!(mark, vec![8]);
    // Song 7 was skipped (live job); song 9 got a remediation job.
    assert_eq!(store.len(), 2);
    let active = store.jobs_active();
    let keys: Vec<&str> = active.iter().filter_map(|j| j.idempotency_key.as_deref()).collect();
    assert!(keys.contains(&"lyrics_7"));
    assert!(keys.contains(&"lyrics_legacy_migrate_9"));
    // A second sweep is deduplicated by the key.
    let again = queue_legacy_unsynced_lyrics(&mut store, &candidates, true, 60);
    assert_eq!(again, vec![8]);
    assert_eq!(store.len(), 2);
    // Outside strict mode the sweep does nothing.
    let off = queue_legacy_unsynced_lyrics(&mut store, &candidates, false, 70);
    assert!(off.is_empty());
}

#[test]
fn ingest_start_validates_and_dedups() {
    let mut store = JobStore::new();
    let empty = IngestStartArgs { url: "   ".to_string(), rehydrate: false, song_id: None };
    let err = ingest_start(&mut store, &empty, "x", 10).unwrap_err();
    assert_eq!(err.message(), "validation: URL cannot be empty");

    let alien = IngestStartArgs {
        url: "https://example.com/watch".to_string(),
        rehydrate: false,
        song_id: None,
    };
    let err = ingest_start(&mut store, &alien, "https://example.com/watch", 10).unwrap_err();
    assert_eq!(err.message(), "validation: Unsupported platform");
    assert_eq!(store.len(), 0);

    let request = IngestStartArgs {
        url: "https://www.youtube.com/watch?v=abc123".to_string(),
        rehydrate: false,
        song_id: Some(4),
    };
    let normalized = "https://youtube.com/watch?v=abc123";
    let first = ingest_start(&mut store, &request, normalized, 20).expect("enqueue");
    assert_eq!(first.status, JobStatus::Pending);
    assert_eq!(first.kind, "ingest_audio");
    let second = ingest_start(&mut store, &request, normalized, 30).expect("dedup");
    assert_eq!(second.id, first.id);
    assert_eq!(store.len(), 1);
    let row = store.job_get(first.id).expect("row");
    let key = row.idempotency_key.as_deref().expect("key");
    assert!(key.starts_with("ingest_"));
    assert_eq!(key.len(), "ingest_".len() + 32);
    assert!(row.title.as_deref().unwrap().starts_with("Ingesting: "));
    let payload = row.payload.as_deref().expect("payload");
    assert_eq!(
        lyricvault::payload::payload_url(payload).as_deref(),
        Some("https://www.youtube.com/watch?v=abc123")
    );
    assert_eq!(lyricvault::payload::payload_song_id(payload), Some(4));

    // A different link derives a different key and a different row.
    let other = IngestStartArgs {
        url: "https://youtu.be/zzz".to_string(),
        rehydrate: false,
        song_id: None,
    };
    let third = ingest_start(&mut store, &other, "https://youtu.be/zzz", 40).expect("other");
    assert_ne!(third.id, first.id);
}

#[test]
fn retry_lyrics_keys_by_song_and_time() {
    let mut store = JobStore::new();
    let song = lyricvault::ingest::SongRef {
        id: 3,
        title: "Song".to_string(),
        artist: "Artist".to_string(),
        file_path: Some("/m/s.mp3".to_string()),
    };
    let r = lyricvault::ingest::retry_lyrics(&mut store, &song, 555);
    assert_eq!(r.kind, "generate_lyrics");
    let row = store.job_get(r.id).expect("row");
    assert_eq!(row.idempotency_key.as_deref(), Some("lyrics_retry_3_555"));
    assert_eq!(row.title.as_deref(), Some("Retrying Lyrics: Song"));
    let payload = row.payload.as_deref().expect("payload");
    assert_eq!(lyricvault::payload::payload_song_id(payload), Some(3));
}
