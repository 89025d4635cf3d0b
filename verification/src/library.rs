//! The library read model: deriving each song's audio and lyrics status
//! from its row, the set of live jobs, and the strict-sync policy.
//!
//! The caller supplies what only the edges can know: whether the cached
//! file is actually present on disk, the normalized form of each source
//! URL, and the normalized URLs of live ingest jobs.

use crate::lyrics::{spec_has_unsynced_text, spec_validate_lrc};
use crate::strutil::str_eq;
use crate::urlkit::stream_url_of;
use crate::worker::ids_model;
use vstd::prelude::*;

verus! {

/// One song row as the read queries see it. `file_present` reports whether
/// `file_path` currently exists on disk; `source_url_normalized` is the
/// normalized form of `source_url`.
pub struct SongRow {
    pub id: i64,
    pub title: String,
    pub artist: String,
    pub lyrics: Option<String>,
    pub lyrics_synced: bool,
    pub source_url: Option<String>,
    pub source_url_normalized: Option<String>,
    pub cover_url: Option<String>,
    pub duration: Option<i64>,
    pub lyrics_source: Option<String>,
    pub file_path: Option<String>,
    pub file_present: bool,
}

/// Ghost model of a song row.
pub ghost struct SongRowModel {
    pub id: int,
    pub title: Seq<char>,
    pub artist: Seq<char>,
    pub lyrics: Option<Seq<char>>,
    pub lyrics_synced: bool,
    pub source_url: Option<Seq<char>>,
    pub source_url_normalized: Option<Seq<char>>,
    pub cover_url: Option<Seq<char>>,
    pub duration: Option<int>,
    pub lyrics_source: Option<Seq<char>>,
    pub file_path: Option<Seq<char>>,
    pub file_present: bool,
}

impl View for SongRow {
    type V = SongRowModel;

    open spec fn view(&self) -> SongRowModel {
        SongRowModel {
            id: self.id as int,
            title: self.title@,
            artist: self.artist@,
            lyrics: self.lyrics.deep_view(),
            lyrics_synced: self.lyrics_synced,
            source_url: self.source_url.deep_view(),
            source_url_normalized: self.source_url_normalized.deep_view(),
            cover_url: self.cover_url.deep_view(),
            duration: crate::job::opt_int(self.duration),
            lyrics_source: self.lyrics_source.deep_view(),
            file_path: self.file_path.deep_view(),
            file_present: self.file_present,
        }
    }
}

impl DeepView for SongRow {
    type V = SongRowModel;

    open spec fn deep_view(&self) -> SongRowModel {
        self.view()
    }
}

/// A song as reported to the listing surface.
pub struct SongResponse {
    pub id: i64,
    pub title: String,
    pub artist: String,
    pub status: String,
    pub lyrics_status: String,
    pub lyrics_synced: bool,
    pub stream_url: String,
    pub source_url: Option<String>,
    pub cover_url: Option<String>,
    pub duration: Option<i64>,
    pub lyrics_source: Option<String>,
}

/// A single song with its full detail, as reported to the detail surface.
pub struct SongDetailResponse {
    pub id: i64,
    pub title: String,
    pub artist: String,
    pub status: String,
    pub lyrics_status: String,
    pub lyrics_synced: bool,
    pub lyrics: Option<String>,
    pub file_path: Option<String>,
    pub stream_url: String,
    pub source_url: Option<String>,
    pub cover_url: Option<String>,
    pub duration: Option<i64>,
    pub lyrics_source: Option<String>,
}

/// A song's audio status: `cached` when its file is present, otherwise
/// `re-downloading` while a live ingest job targets its source URL, else
/// `expired`.
pub open spec fn spec_audio_status(
    file_path: Option<Seq<char>>,
    file_present: bool,
    normalized_source: Option<Seq<char>>,
    active_ingest: Seq<Seq<char>>,
) -> Seq<char> {
    if file_path is Some && file_present {
        "cached"@
    } else if normalized_source matches Some(u) && active_ingest.contains(u) {
        "re-downloading"@
    } else {
        "expired"@
    }
}

/// Membership of a string in a vector of strings.
pub fn contains_string(v: &Vec<String>, s: &str) -> (r: bool)
    ensures
        r == v.deep_view().contains(s@),
{
    let n = v.len();
    let mut i: usize = 0;
    while i < n
        invariant
            0 <= i <= n,
            n == v@.len(),
            forall|k: int| 0 <= k < i ==> v.deep_view()[k] != s@,
        decreases n - i,
    {
        if str_eq(v[i].as_str(), s) {
            proof {
                assert(v.deep_view()[i as int] == s@);
            }
            return true;
        }
        i += 1;
    }
    proof {
        if v.deep_view().contains(s@) {
            let k = choose|k: int| 0 <= k < v.deep_view().len() && v.deep_view()[k] == s@;
            assert(v.deep_view()[k] != s@);
        }
    }
    false
}

/// Membership of an identifier in a vector of identifiers.
pub fn contains_id(ids: &Vec<i64>, id: i64) -> (r: bool)
    ensures
        r == ids_model(ids@).contains(id as int),
{
    let n = ids.len();
    let mut i: usize = 0;
    while i < n
        invariant
            0 <= i <= n,
            n == ids@.len(),
            forall|k: int| 0 <= k < i ==> ids_model(ids@)[k] != id as int,
        decreases n - i,
    {
        if ids[i] == id {
            proof {
                assert(ids_model(ids@)[i as int] == id as int);
            }
            return true;
        }
        i += 1;
    }
    proof {
        if ids_model(ids@).contains(id as int) {
            let k = choose|k: int| 0 <= k < ids_model(ids@).len() && ids_model(ids@)[k] == id as int;
            assert(ids_model(ids@)[k] != id as int);
        }
    }
    false
}

/// Resolves a song's audio status; see [`spec_audio_status`].
pub fn resolve_audio_status(
    file_path: Option<&str>,
    file_present: bool,
    normalized_source: Option<&str>,
    active_ingest: &Vec<String>,
) -> (r: String)
    ensures
        r@ == spec_audio_status(
            file_path.deep_view(),
            file_present,
            normalized_source.deep_view(),
            active_ingest.deep_view(),
        ),
{
    if file_path.is_some() && file_present {
        return "cached".to_owned();
    }
    if let Some(u) = normalized_source {
        if contains_string(active_ingest, u) {
            return "re-downloading".to_owned();
        }
    }
    "expired".to_owned()
}

/// A song's lyrics status: `ready` when it holds valid synced lyrics,
/// `processing` while a live lyrics job targets it, `unsynced` when
/// fallback mode accepts its plain text, else `unavailable`.
pub open spec fn spec_lyrics_status(
    song_id: int,
    lyrics: Option<Seq<char>>,
    lyrics_synced: bool,
    active_lyrics: Seq<int>,
    strict: bool,
) -> Seq<char> {
    if lyrics_synced && (lyrics matches Some(v) && spec_validate_lrc(v)) {
        "ready"@
    } else if active_lyrics.contains(song_id) {
        "processing"@
    } else if !strict && spec_has_unsynced_text(lyrics) {
        "unsynced"@
    } else {
        "unavailable"@
    }
}

/// Resolves a song's lyrics status; see [`spec_lyrics_status`].
pub fn resolve_lyrics_status(
    song_id: i64,
    lyrics: Option<&str>,
    lyrics_synced: bool,
    active_lyrics: &Vec<i64>,
    strict: bool,
) -> (r: String)
    ensures
        r@ == spec_lyrics_status(
            song_id as int,
            lyrics.deep_view(),
            lyrics_synced,
            ids_model(active_lyrics@),
            strict,
        ),
{
    if crate::lyrics::existing_synced_lyrics(lyrics, lyrics_synced) {
        return "ready".to_owned();
    }
    if contains_id(active_lyrics, song_id) {
        return "processing".to_owned();
    }
    if !strict && crate::lyrics::has_unsynced_text(lyrics) {
        return "unsynced".to_owned();
    }
    "unavailable".to_owned()
}

/// Whether the listing reports the song's lyrics as synced: the stored flag
/// backed by actual validation of the text.
pub open spec fn spec_synced_flag(s: SongRowModel) -> bool {
    (s.lyrics matches Some(v) && spec_validate_lrc(v)) && s.lyrics_synced
}

/// The audio status of a row, over its model.
pub open spec fn spec_row_audio_status(s: SongRowModel, active_ingest: Seq<Seq<char>>) -> Seq<
    char,
> {
    spec_audio_status(s.file_path, s.file_present, s.source_url_normalized, active_ingest)
}

/// The stream URL of a row: derived from its file only while it is cached.
pub open spec fn spec_row_stream_url(s: SongRowModel, active_ingest: Seq<Seq<char>>) -> Seq<
    char,
> {
    if spec_row_audio_status(s, active_ingest) == "cached"@ {
        stream_url_of(s.file_path)
    } else {
        Seq::empty()
    }
}

/// The listing entry a row maps to.
pub fn song_to_response(
    song: &SongRow,
    active_ingest: &Vec<String>,
    active_lyrics: &Vec<i64>,
    strict: bool,
) -> (r: SongResponse)
    ensures
        r.id == song.id,
        r.title@ == song@.title,
        r.artist@ == song@.artist,
        r.status@ == spec_row_audio_status(song@, active_ingest.deep_view()),
        r.lyrics_status@ == spec_lyrics_status(
            song@.id,
            song@.lyrics,
            song@.lyrics_synced,
            ids_model(active_lyrics@),
            strict,
        ),
        r.lyrics_synced == spec_synced_flag(song@),
        r.stream_url@ == spec_row_stream_url(song@, active_ingest.deep_view()),
        r.source_url == song.source_url,
        r.cover_url == song.cover_url,
        r.duration == song.duration,
        r.lyrics_source == song.lyrics_source,
{
    let status = resolve_audio_status(
        match &song.file_path {
            Some(p) => Some(p.as_str()),
            None => None,
        },
        song.file_present,
        match &song.source_url_normalized {
            Some(u) => Some(u.as_str()),
            None => None,
        },
        active_ingest,
    );
    let stream_url = if str_eq(status.as_str(), "cached") {
        crate::urlkit::stream_url_for_file(
            match &song.file_path {
                Some(p) => Some(p.as_str()),
                None => None,
            },
        )
    } else {
        let e = String::new();
        proof {
            assert(e@ =~= Seq::<char>::empty());
        }
        e
    };
    let lyrics_ref = match &song.lyrics {
        Some(v) => Some(v.as_str()),
        None => None,
    };
    let lyrics_status = resolve_lyrics_status(
        song.id,
        lyrics_ref,
        song.lyrics_synced,
        active_lyrics,
        strict,
    );
    let lyrics_synced = (match lyrics_ref {
        Some(v) => crate::lyrics::validate_lrc(v),
        None => false,
    }) && song.lyrics_synced;
    SongResponse {
        id: song.id,
        title: song.title.clone(),
        artist: song.artist.clone(),
        status,
        lyrics_status,
        lyrics_synced,
        stream_url,
        source_url: crate::job::clone_opt_string(&song.source_url),
        cover_url: crate::job::clone_opt_string(&song.cover_url),
        duration: song.duration,
        lyrics_source: crate::job::clone_opt_string(&song.lyrics_source),
    }
}

/// The whole library listing: each row mapped to its entry, in the order
/// given.
pub fn library_list(
    songs: &Vec<SongRow>,
    active_ingest: &Vec<String>,
    active_lyrics: &Vec<i64>,
    strict: bool,
) -> (r: Vec<SongResponse>)
    ensures
        r@.len() == songs@.len(),
        forall|i: int|
            0 <= i < songs@.len() ==> {
                let s = #[trigger] songs.deep_view()[i];
                &&& r@[i].id as int == s.id
                &&& r@[i].title@ == s.title
                &&& r@[i].artist@ == s.artist
                &&& r@[i].status@ == spec_row_audio_status(s, active_ingest.deep_view())
                &&& r@[i].lyrics_status@ == spec_lyrics_status(
                    s.id,
                    s.lyrics,
                    s.lyrics_synced,
                    ids_model(active_lyrics@),
                    strict,
                )
                &&& r@[i].lyrics_synced == spec_synced_flag(s)
                &&& r@[i].stream_url@ == spec_row_stream_url(s, active_ingest.deep_view())
            },
{
    let n = songs.len();
    let mut out: Vec<SongResponse> = Vec::new();
    let mut i: usize = 0;
    while i < n
        invariant
            0 <= i <= n,
            n == songs@.len(),
            out@.len() == i,
            forall|k: int|
                0 <= k < i ==> {
                    let s = #[trigger] songs.deep_view()[k];
                    &&& out@[k].id as int == s.id
                    &&& out@[k].title@ == s.title
                    &&& out@[k].artist@ == s.artist
                    &&& out@[k].status@ == spec_row_audio_status(s, active_ingest.deep_view())
                    &&& out@[k].lyrics_status@ == spec_lyrics_status(
                        s.id,
                        s.lyrics,
                        s.lyrics_synced,
                        ids_model(active_lyrics@),
                        strict,
                    )
                    &&& out@[k].lyrics_synced == spec_synced_flag(s)
                    &&& out@[k].stream_url@ == spec_row_stream_url(s, active_ingest.deep_view())
                },
        decreases n - i,
    {
        let entry = song_to_response(&songs[i], active_ingest, active_lyrics, strict);
        out.push(entry);
        i += 1;
    }
    out
}

/// The detail view of one row.
pub fn song_get(
    song: &SongRow,
    active_ingest: &Vec<String>,
    active_lyrics: &Vec<i64>,
    strict: bool,
) -> (r: SongDetailResponse)
    ensures
        r.id == song.id,
        r.title@ == song@.title,
        r.artist@ == song@.artist,
        r.status@ == spec_row_audio_status(song@, active_ingest.deep_view()),
        r.lyrics_status@ == spec_lyrics_status(
            song@.id,
            song@.lyrics,
            song@.lyrics_synced,
            ids_model(active_lyrics@),
            strict,
        ),
        r.lyrics_synced == spec_synced_flag(song@),
        r.lyrics == song.lyrics,
        r.file_path == song.file_path,
        r.stream_url@ == spec_row_stream_url(song@, active_ingest.deep_view()),
        r.source_url == song.source_url,
        r.cover_url == song.cover_url,
        r.duration == song.duration,
        r.lyrics_source == song.lyrics_source,
{
    let entry = song_to_response(song, active_ingest, active_lyrics, strict);
    SongDetailResponse {
        id: entry.id,
        title: entry.title,
        artist: entry.artist,
        status: entry.status,
        lyrics_status: entry.lyrics_status,
        lyrics_synced: entry.lyrics_synced,
        lyrics: crate::job::clone_opt_string(&song.lyrics),
        file_path: crate::job::clone_opt_string(&song.file_path),
        stream_url: entry.stream_url,
        source_url: entry.source_url,
        cover_url: entry.cover_url,
        duration: entry.duration,
        lyrics_source: entry.lyrics_source,
    }
}

/// The rows whose recorded file is gone from disk: their identifiers, for
/// the caller to clear the stale paths.
pub fn songs_with_missing_files(songs: &Vec<SongRow>) -> (r: Vec<i64>)
    ensures
        ids_model(r@) == songs.deep_view().filter(
            |s: SongRowModel| s.file_path is Some && !s.file_present,
        ).map_values(|s: SongRowModel| s.id),
{
    let n = songs.len();
    let mut out: Vec<i64> = Vec::new();
    let mut i: usize = 0;
    proof {
        reveal(Seq::filter);
        assert(songs.deep_view().take(0) =~= Seq::<SongRowModel>::empty());
        assert(ids_model(out@) =~= songs.deep_view().take(0).filter(
            |s: SongRowModel| s.file_path is Some && !s.file_present,
        ).map_values(|s: SongRowModel| s.id));
    }
    while i < n
        invariant
            0 <= i <= n,
            n == songs@.len(),
            ids_model(out@) == songs.deep_view().take(i as int).filter(
                |s: SongRowModel| s.file_path is Some && !s.file_present,
            ).map_values(|s: SongRowModel| s.id),
        decreases n - i,
    {
        let ghost pre = out@;
        let missing = songs[i].file_path.is_some() && !songs[i].file_present;
        if missing {
            out.push(songs[i].id);
        }
        proof {
            reveal(Seq::filter);
            let pred = |s: SongRowModel| s.file_path is Some && !s.file_present;
            assert(songs.deep_view().take(i as int + 1).drop_last() =~= songs.deep_view().take(
                i as int,
            ));
            assert(songs.deep_view().take(i as int + 1).last() == songs.deep_view()[i as int]);
            if missing {
                assert(ids_model(out@) =~= ids_model(pre).push(songs.deep_view()[i as int].id));
                assert(ids_model(out@) =~= songs.deep_view().take(i as int).filter(pred).push(
                    songs.deep_view()[i as int],
                ).map_values(|s: SongRowModel| s.id));
            }
        }
        i += 1;
    }
    proof {
        assert(songs.deep_view().take(n as int) =~= songs.deep_view());
    }
    out
}

} // verus!
