//! The library read model, the ingest rehydrate flow, URL helpers and the
//! lyrics validation predicate.

use lyricvault::ingest::{ingest_start, IngestStartArgs};
use lyricvault::library::{library_list, song_get, songs_with_missing_files, SongRow};
use lyricvault::lyrics::{
    has_unsynced_text, lyrics_decision, validate_gemini_key, validate_genius_token, validate_lrc,
    LyricsAction,
};
use lyricvault::status::JobStatus;
use lyricvault::store::JobStore;
use lyricvault::urlkit::{
    host_matches, looks_like_url, parse_url_platform, stream_url_for_file,
};

fn song(id: i64, lyrics: Option<&str>, synced: bool) -> SongRow {
    SongRow {
        id,
        title: format!("Song {id}"),
        artist: "Artist A".to_string(),
        lyrics: lyrics.map(|s| s.to_string()),
        lyrics_synced: synced,
        source_url: Some("https://www.youtube.com/watch?v=abc123".to_string()),
        source_url_normalized: Some("https://youtube.com/watch?v=abc123".to_string()),
        cover_url: None,
        duration: Some(200),
        lyrics_source: None,
        file_path: None,
        file_present: false,
    }
}

#[test]
fn rehydrate_flow_resets_completed_ingest() {
    let mut store = JobStore::new();
    let request = IngestStartArgs {
        url: "https://www.youtube.com/watch?v=dQw4w9WgXcQ".to_string(),
        rehydrate: false,
        song_id: None,
    };
    let normalized = "https://youtube.com/watch?v=dQw4w9WgXcQ";
    let created = ingest_start(&mut store, &request, normalized, 100).expect("create ingest");
    // Force the row to completed, as a finished worker would.
    assert!(store.claim_update(created.id, "w".to_string(), 101));
    assert!(store.complete(created.id, "w", None, None, 102));

    let same = ingest_start(&mut store, &request, normalized, 110).expect("reuse existing");
    assert_eq!(same.id, created.id);
    assert_eq!(same.status, JobStatus::Completed);

    let rehydrate = ingest_start(
        &mut store,
        &IngestStartArgs { url: request.url, rehydrate: true, song_id: None },
        normalized,
        120,
    )
    .expect("rehydrate");
    assert_eq!(rehydrate.id, created.id);
    assert_eq!(rehydrate.status, JobStatus::Pending);
    let row = store.job_get(created.id).expect("row");
    assert_eq!(row.retry_count, 0);
}

#[test]
fn strict_vs_fallback_lyrics_modes_are_reflected() {
    let songs = vec![song(1, Some("plain unsynced lyric text"), false)];
    let no_ingest: Vec<String> = Vec::new();
    let no_lyrics: Vec<i64> = Vec::new();

    let strict = library_list(&songs, &no_ingest, &no_lyrics, true);
    assert_eq!(strict[0].lyrics_status, "unavailable");

    let fallback = library_list(&songs, &no_ingest, &no_lyrics, false);
    assert_eq!(fallback[0].lyrics_status, "unsynced");
}

#[test]
fn audio_status_transitions_between_redownloading_and_expired() {
    let songs = vec![song(2, None, false)];
    let no_lyrics: Vec<i64> = Vec::new();

    let active = vec!["https://youtube.com/watch?v=abc123".to_string()];
    let downloading = library_list(&songs, &active, &no_lyrics, true);
    assert_eq!(downloading[0].status, "re-downloading");

    let no_ingest: Vec<String> = Vec::new();
    let expired = library_list(&songs, &no_ingest, &no_lyrics, true);
    assert_eq!(expired[0].status, "expired");
}

#[test]
fn cached_song_gets_stream_url() {
    let mut s = song(3, None, false);
    s.file_path = Some("/media/cache/My Song.mp3".to_string());
    s.file_present = true;
    let songs = vec![s];
    let no_ingest: Vec<String> = Vec::new();
    let no_lyrics: Vec<i64> = Vec::new();
    let listed = library_list(&songs, &no_ingest, &no_lyrics, true);
    assert_eq!(listed[0].status, "cached");
    assert_eq!(listed[0].stream_url, "lvmedia://localhost/My%20Song.mp3");

    let detail = song_get(&songs[0], &no_ingest, &no_lyrics, true);
    assert_eq!(detail.status, "cached");
    assert_eq!(detail.file_path.as_deref(), Some("/media/cache/My Song.mp3"));
}

#[test]
fn lyrics_status_ready_and_processing() {
    let synced_text = " [00:01.5]a\n[00:12]b\n[10:03.123]c\n[00:04]d\n[00:05]e";
    let songs = vec![song(4, Some(synced_text), true), song(5, None, false)];
    let no_ingest: Vec<String> = Vec::new();
    let listed = library_list(&songs, &no_ingest, &vec![5], true);
    assert_eq!(listed[0].lyrics_status, "ready");
    assert!(listed[0].lyrics_synced);
    assert_eq!(listed[1].lyrics_status, "processing");
}

#[test]
fn missing_files_are_reported_for_cleanup() {
    let mut gone = song(6, None, false);
    gone.file_path = Some("/media/gone.mp3".to_string());
    gone.file_present = false;
    let mut there = song(7, None, false);
    there.file_path = Some("/media/there.mp3".to_string());
    there.file_present = true;
    let pathless = song(8, None, false);
    let ids = songs_with_missing_files(&vec![gone, there, pathless]);
    assert_eq!(ids, vec![6]);
}

#[test]
fn lrc_validation_counts_timestamped_lines() {
    // Five stamped lines: synced.
    assert!(validate_lrc("[00:01]a\n[00:02]b\n[00:03]c\n[00:04.9]d\n  [00:05.99]e"));
    // Only four: not synced.
    assert!(!validate_lrc("[00:01]a\n[00:02]b\n[00:03]c\n[00:04]d"));
    // Stamps not at line starts do not count.
    assert!(!validate_lrc("x[00:01] x[00:02] x[00:03] x[00:04] x[00:05]"));
    // Malformed stamps do not count.
    assert!(!validate_lrc("[0:01]a\n[00:2]b\n[00-03]c\n[00:04x]d\n[00:05.1234]e"));
    assert!(!validate_lrc(""));
}

#[test]
fn unsynced_text_predicate() {
    assert!(has_unsynced_text(Some("words")));
    assert!(!has_unsynced_text(Some("   ")));
    assert!(!has_unsynced_text(Some("Lyrics not found.")));
    assert!(!has_unsynced_text(None));
}

#[test]
fn lyrics_decision_tree() {
    assert_eq!(lyrics_decision(true, true, true, false), LyricsAction::SaveSynced);
    assert_eq!(lyrics_decision(true, false, false, false), LyricsAction::SaveUnsynced);
    assert_eq!(lyrics_decision(true, false, true, true), LyricsAction::KeepExisting);
    assert_eq!(lyrics_decision(true, false, true, false), LyricsAction::MarkNotFound);
    assert_eq!(lyrics_decision(false, false, false, true), LyricsAction::KeepExisting);
    assert_eq!(lyrics_decision(false, false, false, false), LyricsAction::MarkNotFound);
}

#[test]
fn key_shape_checks() {
    assert!(validate_gemini_key("AIzaSyA123456789012345678901234567890"));
    assert!(validate_gemini_key("  AIzaSyA123456789012345678901234567890  "));
    assert!(!validate_gemini_key("AIza-too-short"));
    assert!(!validate_gemini_key("BIzaSyA123456789012345678901234567890"));
    assert!(validate_genius_token("abcde"));
    assert!(!validate_genius_token("abcd"));
    assert!(!validate_genius_token("            "));
}

#[test]
fn platform_detection_by_host() {
    assert_eq!(parse_url_platform("https://www.youtube.com/watch?v=x"), Some("youtube"));
    assert_eq!(parse_url_platform("https://youtu.be/x"), Some("youtube"));
    assert_eq!(parse_url_platform("https://open.spotify.com/track/1"), Some("spotify"));
    assert_eq!(parse_url_platform("https://soundcloud.com/a/b"), Some("soundcloud"));
    assert_eq!(parse_url_platform("https://music.apple.com/x"), Some("apple"));
    assert_eq!(parse_url_platform("https://www.tiktok.com/@u/video/1"), Some("tiktok"));
    assert_eq!(parse_url_platform("https://fb.watch/abc"), Some("facebook"));
    assert_eq!(parse_url_platform("https://example.com/x"), None);
    assert_eq!(parse_url_platform("not a url"), None);
    // A host merely ending in a platform name is no match.
    assert_eq!(parse_url_platform("https://notyoutube.com/x"), None);
}

#[test]
fn host_matching_and_url_shape() {
    assert!(host_matches("youtube.com", "youtube.com"));
    assert!(host_matches("music.youtube.com", "youtube.com"));
    assert!(!host_matches("notyoutube.com", "youtube.com"));
    assert!(looks_like_url("https://example.com"));
    assert!(looks_like_url("http://example.com/a?b=c"));
    assert!(!looks_like_url("ftp://example.com"));
    assert!(!looks_like_url("plain search words"));
}

#[test]
fn stream_urls_encode_file_names() {
    assert_eq!(
        stream_url_for_file(Some("/cache/sample.mp3")),
        "lvmedia://localhost/sample.mp3"
    );
    assert_eq!(
        stream_url_for_file(Some("C:\\cache\\a b.mp3")),
        "lvmedia://localhost/a%20b.mp3"
    );
    assert_eq!(stream_url_for_file(Some("/ends/in/slash/")), "");
    assert_eq!(stream_url_for_file(None), "");
}
