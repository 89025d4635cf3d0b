//! The enqueue paths: submitting a media URL for ingestion, re-requesting
//! lyrics for one entity, and the follow-up lyrics job an ingest queues.
//! These derive the idempotency keys that make submission idempotent.

use crate::errors::CoreError;
use crate::job::{opt_int, JobResponse};
use crate::numfmt::{dec_digits, i64_to_string};
use crate::payload::{encode_ingest_payload, encode_lyrics_payload, ingest_payload_of,
    lyrics_payload_of};
use crate::store::{spec_enqueue, JobStore, MAX_NOW};
use crate::strutil::trimmed;
use crate::urlkit::{canonical_host, parse_url_platform, platform_of_host};
use vstd::prelude::*;
use vstd::string::{StrSliceExecFns, StringExecFns};

verus! {

/// The 128-bit digest of the input, rendered as 32 lowercase hex digits; a
/// function of the input alone.
pub uninterp spec fn md5_hex_of(s: Seq<char>) -> Seq<char>;

/// Relies on the md5 crate: `compute` hashes the bytes and the digest's
/// `LowerHex` rendering writes each of its 16 bytes as two hex digits.
#[verifier::external_body]
pub fn md5_hex(s: &str) -> (r: String)
    ensures
        r@ == md5_hex_of(s@),
        r@.len() == 32,
{
    let digest = md5::compute(s.as_bytes());
    format!("{:x}", digest)
}

/// A request to ingest one media URL.
pub struct IngestStartArgs {
    pub url: String,
    pub rehydrate: bool,
    pub song_id: Option<i64>,
}

/// The idempotency key of an ingest request: derived from the normalized
/// URL, so that resubmitting the same link lands on the same row.
pub open spec fn ingest_key_of(normalized_url: Seq<char>) -> Seq<char> {
    "ingest_"@ + md5_hex_of(normalized_url)
}

/// The display title of a fresh ingest row: the link, shortened.
pub open spec fn ingest_title_of(turl: Seq<char>) -> Seq<char> {
    "Ingesting: "@ + (if turl.len() <= 50 {
        turl
    } else {
        turl.take(50)
    }) + "..."@
}

/// Whether the trimmed URL belongs to a recognized platform.
pub open spec fn supported_platform(t: Seq<char>) -> bool {
    match canonical_host(t) {
        Some(h) => platform_of_host(h) is Some,
        None => false,
    }
}

/// Submits a media URL: rejects an empty or unrecognized link, then runs
/// the idempotent enqueue under the key derived from the normalized URL.
/// The caller supplies the normalized form of the URL; the store is
/// untouched on rejection.
pub fn ingest_start(
    store: &mut JobStore,
    request: &IngestStartArgs,
    normalized_url: &str,
    now: i64,
) -> (r: Result<JobResponse, CoreError>)
    requires
        old(store).wf(),
        1 <= now <= MAX_NOW,
        old(store)@.next_id < i64::MAX as int,
    ensures
        final(store).wf(),
        ({
            let t = trimmed(request.url@);
            if t.len() == 0 {
                &&& final(store)@ == old(store)@
                &&& (r matches Err(CoreError::Validation(m)) && m@ == "URL cannot be empty"@)
            } else if !supported_platform(t) {
                &&& final(store)@ == old(store)@
                &&& (r matches Err(CoreError::Validation(m)) && m@ == "Unsupported platform"@)
            } else {
                let (m2, j) = spec_enqueue(
                    old(store)@,
                    "ingest_audio"@,
                    ingest_key_of(normalized_url@),
                    Some(ingest_payload_of(t, opt_int(request.song_id))),
                    Some(ingest_title_of(t)),
                    request.rehydrate,
                    now as int,
                );
                &&& final(store)@ == m2
                &&& (r matches Ok(resp) && resp.id as int == j.id && resp.status == j.status
                    && resp.kind@ == j.kind)
            }
        }),
{
    let t = crate::strutil::trim_str(request.url.as_str());
    if t.is_empty() {
        return Err(CoreError::Validation(String::from_str("URL cannot be empty")));
    }
    if parse_url_platform(t).is_none() {
        return Err(CoreError::Validation(String::from_str("Unsupported platform")));
    }
    let digest = md5_hex(normalized_url);
    let mut key = String::from_str("ingest_");
    key.append(digest.as_str());
    let n = t.unicode_len();
    let cut = if n > 50 {
        50
    } else {
        n
    };
    let head = t.substring_char(0, cut);
    let mut title = String::from_str("Ingesting: ");
    title.append(head);
    title.append("...");
    proof {
        if t@.len() <= 50 {
            assert(t@.subrange(0, cut as int) =~= t@);
        }
        assert(title@ =~= ingest_title_of(t@));
        assert(key@ =~= ingest_key_of(normalized_url@));
    }
    let payload = encode_ingest_payload(t, request.song_id);
    let resp = store.enqueue(
        String::from_str("ingest_audio"),
        key,
        Some(payload),
        Some(title),
        request.rehydrate,
        now,
    );
    Ok(resp)
}

/// A song row's identity as the lyrics paths need it.
pub struct SongRef {
    pub id: i64,
    pub title: String,
    pub artist: String,
    pub file_path: Option<String>,
}

/// The idempotency key of an explicit lyrics retry: unique per request
/// because it carries the submission time.
pub open spec fn retry_key_of(song_id: int, now: int) -> Seq<char> {
    "lyrics_retry_"@ + dec_digits(song_id as nat) + "_"@ + dec_digits(now as nat)
}

/// The display title of a lyrics retry row.
pub open spec fn retry_title_of(title: Seq<char>) -> Seq<char> {
    "Retrying Lyrics: "@ + title
}

/// Queues a fresh lyrics job for the entity, keyed by entity and time.
pub fn retry_lyrics(store: &mut JobStore, song: &SongRef, now: i64) -> (r: JobResponse)
    requires
        old(store).wf(),
        1 <= now <= MAX_NOW,
        old(store)@.next_id < i64::MAX as int,
        song.id >= 0,
    ensures
        final(store).wf(),
        ({
            let (m2, j) = spec_enqueue(
                old(store)@,
                "generate_lyrics"@,
                retry_key_of(song.id as int, now as int),
                Some(
                    lyrics_payload_of(
                        song.id as int,
                        song.title@,
                        song.artist@,
                        song.file_path.deep_view(),
                    ),
                ),
                Some(retry_title_of(song.title@)),
                false,
                now as int,
            );
            &&& final(store)@ == m2
            &&& r.id as int == j.id
            &&& r.status == j.status
            &&& r.kind@ == j.kind
        }),
{
    let mut key = String::from_str("lyrics_retry_");
    let id_str = i64_to_string(song.id);
    key.append(id_str.as_str());
    key.append("_");
    let now_str = i64_to_string(now);
    key.append(now_str.as_str());
    proof {
        reveal_strlit("_");
        assert(key@ =~= retry_key_of(song.id as int, now as int));
    }
    let mut title = String::from_str("Retrying Lyrics: ");
    title.append(song.title.as_str());
    let payload = encode_lyrics_payload(
        song.id,
        song.title.as_str(),
        song.artist.as_str(),
        match &song.file_path {
            Some(p) => Some(p.as_str()),
            None => None,
        },
    );
    store.enqueue(
        String::from_str("generate_lyrics"),
        key,
        Some(payload),
        Some(title),
        false,
        now,
    )
}

/// The idempotency key of the follow-up lyrics job an ingest queues: one
/// live lyrics job per entity.
pub open spec fn lyrics_key_of(song_id: int) -> Seq<char> {
    "lyrics_"@ + dec_digits(song_id as nat)
}

/// The display title of a follow-up lyrics row.
pub open spec fn lyrics_title_of(artist: Seq<char>, title: Seq<char>) -> Seq<char> {
    "Lyrics: "@ + artist + " - "@ + title
}

/// Queues the follow-up lyrics job after an ingest, deduplicated by the
/// entity's key: if a row for the entity already exists — whatever its
/// state — the store is left unchanged.
pub fn queue_lyrics_job(
    store: &mut JobStore,
    song_id: i64,
    artist: &str,
    title: Option<&str>,
    file_path: &str,
    now: i64,
) -> (r: JobResponse)
    requires
        old(store).wf(),
        1 <= now <= MAX_NOW,
        old(store)@.next_id < i64::MAX as int,
        song_id >= 0,
    ensures
        final(store).wf(),
        ({
            let used_title = match title.deep_view() {
                Some(t) => t,
                None => "Unknown"@,
            };
            let (m2, j) = spec_enqueue(
                old(store)@,
                "generate_lyrics"@,
                lyrics_key_of(song_id as int),
                Some(
                    lyrics_payload_of(song_id as int, used_title, artist@, Some(file_path@)),
                ),
                Some(lyrics_title_of(artist@, used_title)),
                false,
                now as int,
            );
            &&& final(store)@ == m2
            &&& r.id as int == j.id
            &&& r.status == j.status
            &&& r.kind@ == j.kind
        }),
{
    let used_title = match title {
        Some(t) => t,
        None => "Unknown",
    };
    let mut key = String::from_str("lyrics_");
    let id_str = i64_to_string(song_id);
    key.append(id_str.as_str());
    proof {
        assert(key@ =~= lyrics_key_of(song_id as int));
    }
    let mut row_title = String::from_str("Lyrics: ");
    row_title.append(artist);
    row_title.append(" - ");
    row_title.append(used_title);
    proof {
        assert(row_title@ =~= lyrics_title_of(artist@, used_title@));
    }
    let payload = encode_lyrics_payload(song_id, used_title, artist, Some(file_path));
    store.enqueue(
        String::from_str("generate_lyrics"),
        key,
        Some(payload),
        Some(row_title),
        false,
        now,
    )
}

} // verus!
