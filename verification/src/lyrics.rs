//! Lyrics-side logic: the synced-lyrics (LRC) validation predicate, key
//! format checks, and the decision tree that turns an external research
//! reply into what is stored and reported.

use crate::strutil::trimmed;
use vstd::prelude::*;
use vstd::string::StrSliceExecFns;

verus! {

/// How many timestamped lines a text needs to count as synced lyrics.
pub const LRC_MIN_STAMPS: usize = 5;

/// A decimal digit.
pub open spec fn is_digit(c: char) -> bool {
    c == '0' || c == '1' || c == '2' || c == '3' || c == '4' || c == '5' || c == '6' || c == '7'
        || c == '8' || c == '9'
}

/// Executable digit test.
fn digit_char_test(c: char) -> (r: bool)
    ensures
        r == is_digit(c),
{
    c == '0' || c == '1' || c == '2' || c == '3' || c == '4' || c == '5' || c == '6' || c == '7'
        || c == '8' || c == '9'
}

/// An intra-line blank that may precede a timestamp.
pub open spec fn is_line_blank(c: char) -> bool {
    c == ' ' || c == '\t'
}

/// An LRC timestamp at the head of the sequence: `[mm:ss]`, optionally with
/// one to three fractional digits, as in `[01:23.456]`.
pub open spec fn stamp_lit(s: Seq<char>) -> bool {
    &&& s.len() >= 7
    &&& s[0] == '['
    &&& is_digit(s[1])
    &&& is_digit(s[2])
    &&& s[3] == ':'
    &&& is_digit(s[4])
    &&& is_digit(s[5])
    &&& (s[6] == ']' || (s[6] == '.' && ((s.len() >= 9 && is_digit(s[7]) && s[8] == ']') || (
    s.len() >= 10 && is_digit(s[7]) && is_digit(s[8]) && s[9] == ']') || (s.len() >= 11 && is_digit(
        s[7],
    ) && is_digit(s[8]) && is_digit(s[9]) && s[10] == ']'))))
}

/// A timestamp at the head of the sequence after skipping intra-line blanks.
pub open spec fn stamp_prefix(s: Seq<char>) -> bool
    decreases s.len(),
{
    if s.len() == 0 {
        false
    } else if is_line_blank(s.first()) {
        stamp_prefix(s.drop_first())
    } else {
        stamp_lit(s)
    }
}

/// How many lines of `s` begin (after optional blanks) with a timestamp.
/// `at_line_start` says whether the head of `s` starts a line.
pub open spec fn stamp_count(s: Seq<char>, at_line_start: bool) -> nat
    decreases s.len(),
{
    if s.len() == 0 {
        0nat
    } else {
        (if at_line_start && stamp_prefix(s) {
            1nat
        } else {
            0nat
        }) + stamp_count(s.drop_first(), s.first() == '\n')
    }
}

/// Whether a text is synced lyrics: at least `LRC_MIN_STAMPS` of its lines
/// carry a leading timestamp.
pub open spec fn spec_validate_lrc(s: Seq<char>) -> bool {
    stamp_count(s, true) >= LRC_MIN_STAMPS
}

/// Tests for an LRC timestamp at position `i`, skipping leading blanks.
fn stamp_at(s: &str, i: usize, n: usize) -> (r: bool)
    requires
        n == s@.len(),
        i < n,
    ensures
        r == stamp_prefix(s@.skip(i as int)),
    decreases n - i,
{
    let c = s.get_char(i);
    proof {
        assert(s@.skip(i as int).len() > 0);
        assert(s@.skip(i as int).first() == s@[i as int]);
        assert(s@.skip(i as int).drop_first() =~= s@.skip(i as int + 1));
    }
    if c == ' ' || c == '\t' {
        proof {
            assert(stamp_prefix(s@.skip(i as int)) == stamp_prefix(s@.skip(i as int + 1)));
        }
        if i + 1 < n {
            stamp_at(s, i + 1, n)
        } else {
            proof {
                assert(s@.skip(i as int + 1).len() == 0);
                assert(!stamp_prefix(s@.skip(i as int + 1)));
            }
            false
        }
    } else {
        proof {
            assert(stamp_prefix(s@.skip(i as int)) == stamp_lit(s@.skip(i as int)));
        }
        stamp_lit_at(s, i, n)
    }
}

/// Tests for the literal `[mm:ss(.fff)]` pattern at position `i`.
fn stamp_lit_at(s: &str, i: usize, n: usize) -> (r: bool)
    requires
        n == s@.len(),
        i < n,
    ensures
        r == stamp_lit(s@.skip(i as int)),
{
    let ghost t = s@.skip(i as int);
    if n - i < 7 {
        return false;
    }
    if !(s.get_char(i) == '[' && digit_char_test(s.get_char(i + 1)) && digit_char_test(
        s.get_char(i + 2),
    ) && s.get_char(i + 3) == ':' && digit_char_test(s.get_char(i + 4)) && digit_char_test(
        s.get_char(i + 5),
    )) {
        return false;
    }
    let c6 = s.get_char(i + 6);
    if c6 == ']' {
        return true;
    }
    if c6 != '.' {
        return false;
    }
    if n - i >= 9 && digit_char_test(s.get_char(i + 7)) && s.get_char(i + 8) == ']' {
        return true;
    }
    if n - i >= 10 && digit_char_test(s.get_char(i + 7)) && digit_char_test(s.get_char(i + 8))
        && s.get_char(i + 9) == ']' {
        return true;
    }
    if n - i >= 11 && digit_char_test(s.get_char(i + 7)) && digit_char_test(s.get_char(i + 8))
        && digit_char_test(s.get_char(i + 9)) && s.get_char(i + 10) == ']' {
        return true;
    }
    false
}

/// Whether the text is synced lyrics: it carries at least five timestamped
/// lines.
pub fn validate_lrc(input: &str) -> (r: bool)
    ensures
        r == spec_validate_lrc(input@),
{
    let n = input.unicode_len();
    let mut count: usize = 0;
    let mut line_start: bool = true;
    let mut i: usize = 0;
    proof {
        assert(input@.skip(0) =~= input@);
    }
    while i < n
        invariant
            n == input@.len(),
            0 <= i <= n,
            count <= i,
            stamp_count(input@, true) == count + stamp_count(input@.skip(i as int), line_start),
        decreases n - i,
    {
        proof {
            assert(input@.skip(i as int).first() == input@[i as int]);
            assert(input@.skip(i as int).drop_first() =~= input@.skip(i as int + 1));
        }
        if line_start && stamp_at(input, i, n) {
            count += 1;
        }
        line_start = input.get_char(i) == '\n';
        i += 1;
    }
    proof {
        assert(input@.skip(n as int).len() == 0);
    }
    count >= LRC_MIN_STAMPS
}

/// Whether the stored lyrics hold usable plain text: not empty after
/// trimming and not the not-found marker.
pub open spec fn spec_has_unsynced_text(lyrics: Option<Seq<char>>) -> bool {
    match lyrics {
        Some(v) => trimmed(v).len() > 0 && trimmed(v) != "Lyrics not found."@,
        None => false,
    }
}

/// Whether the stored lyrics hold usable plain (unsynced) text.
pub fn has_unsynced_text(lyrics: Option<&str>) -> (r: bool)
    ensures
        r == spec_has_unsynced_text(lyrics.deep_view()),
{
    match lyrics {
        Some(v) => {
            let t = crate::strutil::trim_str(v);
            !t.is_empty() && !crate::strutil::str_eq(t, "Lyrics not found.")
        },
        None => false,
    }
}

/// Shape of an acceptable research key: the fixed prefix and a minimum
/// length.
pub open spec fn spec_validate_gemini_key(key: Seq<char>) -> bool {
    crate::strutil::has_prefix(trimmed(key), "AIza"@) && trimmed(key).len() >= 34
}

/// Whether a research key has the expected shape.
pub fn validate_gemini_key(key: &str) -> (r: bool)
    ensures
        r == spec_validate_gemini_key(key@),
{
    let t = crate::strutil::trim_str(key);
    crate::strutil::starts_with_str(t, "AIza") && t.unicode_len() >= 34
}

/// Whether a lyrics-catalog token has a plausible length.
pub fn validate_genius_token(token: &str) -> (r: bool)
    ensures
        r == (trimmed(token@).len() >= 5),
{
    let t = crate::strutil::trim_str(token);
    t.unicode_len() >= 5
}

/// What the lyrics path does with a research reply, given the strict-sync
/// policy and whether the entity already holds valid synced lyrics.
#[derive(Debug, PartialEq, Eq, Structural)]
pub enum LyricsAction {
    /// Store the new text as synced lyrics.
    SaveSynced,
    /// Store the new text as unsynced lyrics (fallback mode only).
    SaveUnsynced,
    /// Keep the existing synced lyrics untouched.
    KeepExisting,
    /// Record that no usable lyrics were found.
    MarkNotFound,
}

/// The decision rule: new synced text always wins; plain text is stored
/// only outside strict mode; otherwise existing synced lyrics are kept and
/// failing that the entity is marked not-found.
pub open spec fn spec_lyrics_decision(
    has_text: bool,
    synced: bool,
    strict: bool,
    existing_synced: bool,
) -> LyricsAction {
    if has_text && synced {
        LyricsAction::SaveSynced
    } else if has_text && !strict {
        LyricsAction::SaveUnsynced
    } else if existing_synced {
        LyricsAction::KeepExisting
    } else {
        LyricsAction::MarkNotFound
    }
}

/// Decides what to do with a research reply.
pub fn lyrics_decision(has_text: bool, synced: bool, strict: bool, existing_synced: bool) -> (r:
    LyricsAction)
    ensures
        r == spec_lyrics_decision(has_text, synced, strict, existing_synced),
{
    if has_text && synced {
        LyricsAction::SaveSynced
    } else if has_text && !strict {
        LyricsAction::SaveUnsynced
    } else if existing_synced {
        LyricsAction::KeepExisting
    } else {
        LyricsAction::MarkNotFound
    }
}

/// Normalizes the text field of a research reply: text that is empty after
/// trimming counts as no text at all.
pub fn normalize_lyrics_text(lyrics: Option<String>) -> (r: Option<String>)
    ensures
        match r {
            Some(v) => lyrics is Some && v == lyrics->0 && trimmed(v@).len() > 0,
            None => lyrics is None || trimmed(lyrics->0@).len() == 0,
        },
{
    match lyrics {
        Some(v) => {
            let keep = {
                let t = crate::strutil::trim_str(v.as_str());
                !t.is_empty()
            };
            if keep {
                Some(v)
            } else {
                None
            }
        },
        None => None,
    }
}

/// Whether the entity's stored lyrics already count as valid synced lyrics.
pub fn existing_synced_lyrics(lyrics: Option<&str>, lyrics_synced: bool) -> (r: bool)
    ensures
        r == (lyrics_synced && (lyrics matches Some(v) && spec_validate_lrc(v@))),
{
    lyrics_synced && match lyrics {
        Some(v) => validate_lrc(v),
        None => false,
    }
}


/// The result label a lyrics job records for each decision.
pub fn lyrics_job_status(action: &LyricsAction) -> (r: &'static str)
    ensures
        r@ == (match action {
            LyricsAction::SaveSynced => "found"@,
            LyricsAction::SaveUnsynced => "found_unsynced"@,
            LyricsAction::KeepExisting => "kept_existing_synced"@,
            LyricsAction::MarkNotFound => "not_found"@,
        }),
{
    match action {
        LyricsAction::SaveSynced => "found",
        LyricsAction::SaveUnsynced => "found_unsynced",
        LyricsAction::KeepExisting => "kept_existing_synced",
        LyricsAction::MarkNotFound => "not_found",
    }
}

/// The response an explicit research request reports for each decision:
/// stored text counts as success; kept or missing lyrics report a failure
/// with its reason.
pub fn research_response(
    action: &LyricsAction,
    lyrics: Option<String>,
    failure_reason: Option<String>,
) -> (r: crate::types::LyricsResearchResponse)
    ensures
        (action == LyricsAction::SaveSynced || action == LyricsAction::SaveUnsynced) ==> {
            &&& r.status@ == "success"@
            &&& r.synced == Some(*action == LyricsAction::SaveSynced)
            &&& r.lyrics == lyrics
            &&& r.message is None
            &&& r.failure_reason is None
        },
        (action == LyricsAction::KeepExisting || action == LyricsAction::MarkNotFound) ==> {
            &&& r.status@ == "failed"@
            &&& r.synced == Some(false)
            &&& r.lyrics is None
            &&& (r.message matches Some(m) && m@ == "AI could not find valid synced lyrics."@)
            &&& r.failure_reason == failure_reason
        },
{
    match action {
        LyricsAction::SaveSynced => crate::types::LyricsResearchResponse {
            status: "success".to_owned(),
            synced: Some(true),
            lyrics,
            message: None,
            failure_reason: None,
        },
        LyricsAction::SaveUnsynced => crate::types::LyricsResearchResponse {
            status: "success".to_owned(),
            synced: Some(false),
            lyrics,
            message: None,
            failure_reason: None,
        },
        _ => crate::types::LyricsResearchResponse {
            status: "failed".to_owned(),
            synced: Some(false),
            lyrics: None,
            message: Some("AI could not find valid synced lyrics.".to_owned()),
            failure_reason,
        },
    }
}

} // verus!
