//! Job payloads. A payload is opaque structured data in serialized form;
//! the store carries it as a string. Encoding and field extraction go
//! through serde_json behind named results, so that enqueueing and the
//! sweeps can reason about what a payload round-trips.

use vstd::prelude::*;

verus! {

/// The serialized ingest payload for a URL and an optional entity hint.
pub uninterp spec fn ingest_payload_of(url: Seq<char>, song_id: Option<int>) -> Seq<char>;

/// The serialized lyrics payload for one entity.
pub uninterp spec fn lyrics_payload_of(
    song_id: int,
    title: Seq<char>,
    artist: Seq<char>,
    file_path: Option<Seq<char>>,
) -> Seq<char>;

/// The `url` string field a payload carries, if any.
pub uninterp spec fn url_in_payload(s: Seq<char>) -> Option<Seq<char>>;

/// The `song_id` field a payload carries — a JSON number or a numeric
/// string — if any.
pub uninterp spec fn song_id_in_payload(s: Seq<char>) -> Option<int>;

/// Relies on serde_json serialization: one JSON object holding `url` and,
/// when given, `song_id`; reading either field back yields what was put in.
#[verifier::external_body]
pub fn encode_ingest_payload(url: &str, song_id: Option<i64>) -> (r: String)
    ensures
        r@ == ingest_payload_of(url@, crate::job::opt_int(song_id)),
        url_in_payload(r@) == Some(url@),
        song_id_in_payload(r@) == crate::job::opt_int(song_id),
{
    let mut map = serde_json::Map::new();
    map.insert("url".to_string(), serde_json::Value::String(url.to_string()));
    if let Some(id) = song_id {
        map.insert("song_id".to_string(), serde_json::Value::Number(serde_json::Number::from(id)));
    }
    serde_json::Value::Object(map).to_string()
}

/// Relies on serde_json serialization: one JSON object holding `song_id`,
/// `title`, `artist` and `file_path`; the entity field reads back.
#[verifier::external_body]
pub fn encode_lyrics_payload(song_id: i64, title: &str, artist: &str, file_path: Option<&str>) -> (
    r: String)
    ensures
        r@ == lyrics_payload_of(song_id as int, title@, artist@, file_path.deep_view()),
        song_id_in_payload(r@) == Some(song_id as int),
{
    let mut map = serde_json::Map::new();
    map.insert(
        "song_id".to_string(),
        serde_json::Value::Number(serde_json::Number::from(song_id)),
    );
    map.insert("title".to_string(), serde_json::Value::String(title.to_string()));
    map.insert("artist".to_string(), serde_json::Value::String(artist.to_string()));
    map.insert(
        "file_path".to_string(),
        match file_path {
            Some(p) => serde_json::Value::String(p.to_string()),
            None => serde_json::Value::Null,
        },
    );
    serde_json::Value::Object(map).to_string()
}

/// Relies on serde_json parsing: the `url` string field of a JSON object,
/// `None` for anything else.
#[verifier::external_body]
pub fn payload_url(payload: &str) -> (r: Option<String>)
    ensures
        match (r, url_in_payload(payload@)) {
            (Some(a), Some(b)) => a@ == b,
            (None, None) => true,
            _ => false,
        },
{
    serde_json::from_str::<serde_json::Value>(payload).ok().and_then(
        |v| v.get("url").and_then(|u| u.as_str()).map(|s| s.to_string()),
    )
}

/// Relies on serde_json parsing: the `song_id` field of a JSON object,
/// taken as an integer or as a numeric string, `None` for anything else.
#[verifier::external_body]
pub fn payload_song_id(payload: &str) -> (r: Option<i64>)
    ensures
        match (r, song_id_in_payload(payload@)) {
            (Some(a), Some(b)) => a as int == b,
            (None, None) => true,
            _ => false,
        },
{
    serde_json::from_str::<serde_json::Value>(payload).ok().and_then(
        |v|
            v.get("song_id").and_then(
                |x| x.as_i64().or_else(|| x.as_str().and_then(|s| s.parse().ok())),
            ),
    )
}

} // verus!
