//! The settings store: secret storage round trips, masking, model
//! selection, policies, and the search planner.

use lyricvault::ingest::md5_hex;
use lyricvault::media::{search_plan, SearchArgs, SearchPlan};
use lyricvault::numfmt::u64_to_string;
use lyricvault::lyrics::{research_response, LyricsAction};
use lyricvault::settings::{
    mask_secret, normalize_secret, obfuscate, SettingsStore, YtdlpState,
};

#[test]
fn gemini_key_roundtrip_uses_obfuscated_storage() {
    let mut store = SettingsStore::empty();
    let key = "AIzaSyA123456789012345678901234567890";

    store.set_gemini_api_key(key).expect("set key");
    let stored = store.gemini_api_key.clone().expect("stored value");
    assert_ne!(stored, key, "settings must not hold the raw key");
    assert!(!stored.contains(key));

    let fetched = store.get_gemini_api_key(None).expect("get key");
    assert_eq!(fetched.as_deref(), Some(key));
}

#[test]
fn legacy_plain_text_key_is_still_readable() {
    let mut store = SettingsStore::empty();
    let key = "AIzaSyB123456789012345678901234567890";
    // A legacy settings file stored the key as plain text.
    store.gemini_api_key = Some(key.to_string());

    let fetched = store.get_gemini_api_key(None).expect("get key");
    assert_eq!(fetched.as_deref(), Some(key));
}

#[test]
fn malformed_stored_key_falls_back_to_environment() {
    let mut store = SettingsStore::empty();
    store.gemini_api_key = Some("garbage".to_string());
    let env = "AIzaSyC123456789012345678901234567890";
    let fetched = store.get_gemini_api_key(Some(env)).expect("get key");
    assert_eq!(fetched.as_deref(), Some(env));
    assert!(store.gemini_api_key.is_none(), "the bad value is dropped");
    // An env value of the wrong shape is refused too.
    let none = store.get_gemini_api_key(Some("not-a-key")).expect("get key");
    assert_eq!(none, None);
}

#[test]
fn openai_key_roundtrip_and_errors() {
    let mut store = SettingsStore::empty();
    let err = store.set_openai_api_key("   ").unwrap_err();
    match err {
        lyricvault::errors::SettingsError::Invalid(m) => {
            assert_eq!(m, "API key cannot be empty")
        }
        _ => panic!("expected the invalid-key error"),
    }
    store.set_openai_api_key("sk-test-123").expect("set");
    let got = store.get_openai_api_key(None).expect("get");
    assert_eq!(got.as_deref(), Some("sk-test-123"));
    store.delete_openai_api_key();
    assert_eq!(store.get_openai_api_key(None).expect("get"), None);
    let via_env = store.get_openai_api_key(Some("\"quoted-key\"")).expect("get");
    assert_eq!(via_env.as_deref(), Some("quoted-key"));
}

#[test]
fn genius_credentials_roundtrip() {
    let mut store = SettingsStore::empty();
    store
        .set_genius_credentials(Some("client-1"), Some("secret-1"), Some("token-1"))
        .expect("set");
    let creds = store.get_genius_credentials(None, None, None).expect("get");
    assert_eq!(creds.client_id.as_deref(), Some("client-1"));
    assert_eq!(creds.client_secret.as_deref(), Some("secret-1"));
    assert_eq!(creds.access_token.as_deref(), Some("token-1"));
    // A blank token is ignored, not stored.
    store.set_genius_credentials(None, None, Some("   ")).expect("set");
    let creds = store.get_genius_credentials(None, None, None).expect("get");
    assert_eq!(creds.access_token.as_deref(), Some("token-1"));
    store.delete_genius_credentials();
    let creds = store.get_genius_credentials(None, None, None).expect("get");
    assert!(creds.client_id.is_none() && creds.access_token.is_none());
}

#[test]
fn lyrics_mode_defaults_and_updates() {
    let mut store = SettingsStore::empty();
    assert!(store.get_strict_lrc_mode(), "strict by default");
    assert!(!store.get_allow_explicit(), "clean by default");
    store.set_lyrics_mode(false, true);
    assert!(!store.get_strict_lrc_mode());
    assert!(store.get_allow_explicit());
}

#[test]
fn model_selection_and_catalog() {
    let mut store = SettingsStore::empty();
    assert_eq!(store.get_gemini_model(), "gemini-2.0-flash", "default model");
    assert_eq!(store.get_stable_gemini_model(), "gemini-2.5-flash");
    let models = store.get_available_models();
    assert_eq!(models.len(), 4);
    assert_eq!(models[0].id, "gemini-3-pro-preview");

    store.set_gemini_model("gemini-2.5-flash").expect("select");
    assert_eq!(store.get_gemini_model(), "gemini-2.5-flash");
    let err = store.set_gemini_model("gemini-9").unwrap_err();
    match err {
        lyricvault::errors::SettingsError::Invalid(m) => {
            assert_eq!(m, "Unknown model: gemini-9")
        }
        _ => panic!("expected the unknown-model error"),
    }
    // A stale stored selection falls back to the default and is rewritten.
    store.gemini_model = Some("gemini-old".to_string());
    assert_eq!(store.get_gemini_model(), "gemini-2.0-flash");
    assert_eq!(store.gemini_model.as_deref(), Some("gemini-2.0-flash"));
    let response = store.get_models_response();
    assert_eq!(response.selected, "gemini-2.0-flash");
    assert_eq!(response.models.len(), 4);

    let meta = store.get_model_metadata("gemini-2.5-flash").expect("known");
    assert_eq!(meta.lifecycle, "stable");
    assert!(store.get_model_metadata("nope").is_none());
}

#[test]
fn ytdlp_state_roundtrip_and_status() {
    let mut store = SettingsStore::empty();
    let empty = store.get_ytdlp_state();
    assert!(empty.last_known_good_version.is_none());
    store.set_ytdlp_state(YtdlpState {
        last_known_good_version: Some("2024.1".to_string()),
        last_checked_at: Some("yesterday".to_string()),
        last_update_status: None,
        last_update_error: None,
        last_smoke_test_ok: Some(true),
    });
    let state = store.get_ytdlp_state();
    assert_eq!(state.last_known_good_version.as_deref(), Some("2024.1"));
    let status = lyricvault::media::get_ytdlp_status(&state, Some("2024.2".to_string()));
    assert_eq!(status.version.as_deref(), Some("2024.2"));
    assert!(!status.self_update_allowed && !status.self_update_supported);
    assert_eq!(status.last_smoke_test_ok, Some(true));
}

#[test]
fn secret_masking() {
    assert_eq!(mask_secret(None), None);
    assert_eq!(mask_secret(Some("   ")), None);
    assert_eq!(mask_secret(Some("short")), Some("****".to_string()));
    assert_eq!(mask_secret(Some("12345678")), Some("****".to_string()));
    assert_eq!(
        mask_secret(Some("AIzaSyA123456789B")),
        Some("AIza*********789B".to_string())
    );
}

#[test]
fn secret_normalization() {
    assert_eq!(normalize_secret(None), None);
    assert_eq!(normalize_secret(Some("  ")), None);
    assert_eq!(normalize_secret(Some(" key ")), Some("key".to_string()));
    assert_eq!(normalize_secret(Some("\" key \"")), Some("key".to_string()));
    assert_eq!(normalize_secret(Some("'key'")), Some("key".to_string()));
    assert_eq!(normalize_secret(Some("\"\"")), None);
    // Only one layer of quotes comes off.
    assert_eq!(normalize_secret(Some("\"'k'\"")), Some("'k'".to_string()));
}

#[test]
fn obfuscation_is_base64_on_this_platform() {
    let stored = obfuscate("secret").expect("obfuscate");
    assert_eq!(stored, "c2VjcmV0");
    assert!(obfuscate("   ").is_err());
}

#[test]
fn digest_and_decimal_rendering() {
    // The well-known digest of the empty input.
    assert_eq!(md5_hex(""), "d41d8cd98f00b204e9800998ecf8427e");
    assert_eq!(md5_hex("abc"), "900150983cd24fb0d6963f7d28e17f72");
    assert_eq!(u64_to_string(0), "0");
    assert_eq!(u64_to_string(90537), "90537");
}

#[test]
fn search_planning() {
    let blank = SearchArgs { q: "  ".to_string(), platform: None, social_sources: None };
    assert!(matches!(search_plan(&blank), SearchPlan::Empty));

    let social = SearchArgs {
        q: "dance".to_string(),
        platform: Some(" TikTok ".to_string()),
        social_sources: None,
    };
    assert!(matches!(search_plan(&social), SearchPlan::Bridge));

    let by_url = SearchArgs {
        q: "https://www.youtube.com/watch?v=abc".to_string(),
        platform: None,
        social_sources: None,
    };
    match search_plan(&by_url) {
        SearchPlan::ByUrl { query, platform } => {
            assert_eq!(query, "https://www.youtube.com/watch?v=abc");
            assert_eq!(platform, "youtube");
        }
        _ => panic!("expected a URL plan"),
    }

    let plain = SearchArgs { q: " hello ".to_string(), platform: None, social_sources: None };
    match search_plan(&plain) {
        SearchPlan::Term { search_term, platform } => {
            assert_eq!(search_term, "ytsearch5:hello");
            assert_eq!(platform, "youtube");
        }
        _ => panic!("expected a term plan"),
    }

    let sc = SearchArgs {
        q: "hello".to_string(),
        platform: Some("soundcloud".to_string()),
        social_sources: None,
    };
    match search_plan(&sc) {
        SearchPlan::Term { search_term, platform } => {
            assert_eq!(search_term, "scsearch5:hello");
            assert_eq!(platform, "soundcloud");
        }
        _ => panic!("expected a term plan"),
    }
}

#[test]
fn migrations_pending_filter() {
    let applied = vec!["0002_songs_album_id".to_string()];
    let pending = lyricvault::schema::pending_migrations(&applied);
    assert_eq!(
        pending,
        vec!["0001_jobs_title_column".to_string(), "0003_restore_song_columns".to_string()]
    );
    let none_applied: Vec<String> = Vec::new();
    assert_eq!(lyricvault::schema::pending_migrations(&none_applied).len(), 3);
}

#[test]
fn paths_join_under_root() {
    assert_eq!(lyricvault::paths::database_path("/data"), "/data/lyricvault_v2.db");
    assert_eq!(lyricvault::paths::downloads_dir("/data"), "/data/downloads");
    assert_eq!(lyricvault::paths::logs_dir("/data"), "/data/logs");
    assert_eq!(lyricvault::paths::settings_path("/data"), "/data/settings.json");
}

#[test]
fn research_responses_follow_decision() {
    let ok = research_response(
        &LyricsAction::SaveSynced,
        Some("[00:01]x".to_string()),
        None,
    );
    assert_eq!(ok.status, "success");
    assert_eq!(ok.synced, Some(true));
    assert_eq!(ok.lyrics.as_deref(), Some("[00:01]x"));
    let kept = research_response(
        &LyricsAction::KeepExisting,
        None,
        Some("not_found".to_string()),
    );
    assert_eq!(kept.status, "failed");
    assert_eq!(kept.synced, Some(false));
    assert_eq!(kept.message.as_deref(), Some("AI could not find valid synced lyrics."));
    assert_eq!(kept.failure_reason.as_deref(), Some("not_found"));
}
