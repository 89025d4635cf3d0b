//! URL helpers: platform detection for submitted links, URL-shaped input
//! detection, and the streaming URL derived from a cached file.

use crate::strutil::{ends_with_str, has_prefix, has_suffix, str_eq, string_push_char, trim_str};
use vstd::prelude::*;
use vstd::string::{StrSliceExecFns, StringExecFns};

verus! {

/// What `url::Url::parse` reports as the host of the string, if it parses.
pub uninterp spec fn url_host_of(s: Seq<char>) -> Option<Seq<char>>;

/// Relies on `url::Url::parse` and `Url::host_str`: the host part of the
/// URL; `None` when the string does not parse or has no host.
#[verifier::external_body]
pub fn url_host(raw: &str) -> (r: Option<String>)
    ensures
        match (r, url_host_of(raw@)) {
            (Some(a), Some(b)) => a@ == b,
            (None, None) => true,
            _ => false,
        },
{
    match url::Url::parse(raw) {
        Ok(u) => u.host_str().map(|h| h.to_string()),
        Err(_) => None,
    }
}

/// What `url::Url::parse` reports as the scheme, if the string parses.
pub uninterp spec fn url_scheme_of(s: Seq<char>) -> Option<Seq<char>>;

/// Relies on `url::Url::parse` and `Url::scheme`: the (lowercased) scheme.
#[verifier::external_body]
pub fn url_scheme(raw: &str) -> (r: Option<String>)
    ensures
        match (r, url_scheme_of(raw@)) {
            (Some(a), Some(b)) => a@ == b,
            (None, None) => true,
            _ => false,
        },
{
    match url::Url::parse(raw) {
        Ok(u) => Some(u.scheme().to_string()),
        Err(_) => None,
    }
}

/// What `urlencoding::encode` makes of the string.
pub uninterp spec fn url_encoded_of(s: Seq<char>) -> Seq<char>;

/// Relies on `urlencoding::encode`: percent-encodes every byte outside the
/// ASCII alphanumerics and `-`, `_`, `.`, `~`; an empty string stays empty.
#[verifier::external_body]
pub fn encode_component(s: &str) -> (r: String)
    ensures
        r@ == url_encoded_of(s@),
        s@.len() == 0 ==> r@.len() == 0,
{
    urlencoding::encode(s).into_owned()
}

/// Whether `host` is the domain itself or one of its subdomains.
pub open spec fn spec_host_matches(host: Seq<char>, domain: Seq<char>) -> bool {
    host == domain || has_suffix(host, seq!['.'] + domain)
}

/// Domain test used by the platform table: the host matches `domain` itself
/// or any subdomain of it.
pub fn host_matches(host: &str, domain: &str) -> (r: bool)
    ensures
        r == spec_host_matches(host@, domain@),
{
    if str_eq(host, domain) {
        return true;
    }
    let mut dotted = String::new();
    string_push_char(&mut dotted, '.');
    dotted.append(domain);
    proof {
        assert(dotted@ =~= seq!['.'] + domain@);
    }
    ends_with_str(host, dotted.as_str())
}

/// ASCII lowercasing of one character; everything else is unchanged.
pub open spec fn lower_char(c: char) -> char {
    if c == 'A' {
        'a'
    } else if c == 'B' {
        'b'
    } else if c == 'C' {
        'c'
    } else if c == 'D' {
        'd'
    } else if c == 'E' {
        'e'
    } else if c == 'F' {
        'f'
    } else if c == 'G' {
        'g'
    } else if c == 'H' {
        'h'
    } else if c == 'I' {
        'i'
    } else if c == 'J' {
        'j'
    } else if c == 'K' {
        'k'
    } else if c == 'L' {
        'l'
    } else if c == 'M' {
        'm'
    } else if c == 'N' {
        'n'
    } else if c == 'O' {
        'o'
    } else if c == 'P' {
        'p'
    } else if c == 'Q' {
        'q'
    } else if c == 'R' {
        'r'
    } else if c == 'S' {
        's'
    } else if c == 'T' {
        't'
    } else if c == 'U' {
        'u'
    } else if c == 'V' {
        'v'
    } else if c == 'W' {
        'w'
    } else if c == 'X' {
        'x'
    } else if c == 'Y' {
        'y'
    } else if c == 'Z' {
        'z'
    } else {
        c
    }
}

/// Executable ASCII lowercasing of one character.
fn lower_char_exec(c: char) -> (r: char)
    ensures
        r == lower_char(c),
{
    match c {
        'A' => 'a',
        'B' => 'b',
        'C' => 'c',
        'D' => 'd',
        'E' => 'e',
        'F' => 'f',
        'G' => 'g',
        'H' => 'h',
        'I' => 'i',
        'J' => 'j',
        'K' => 'k',
        'L' => 'l',
        'M' => 'm',
        'N' => 'n',
        'O' => 'o',
        'P' => 'p',
        'Q' => 'q',
        'R' => 'r',
        'S' => 's',
        'T' => 't',
        'U' => 'u',
        'V' => 'v',
        'W' => 'w',
        'X' => 'x',
        'Y' => 'y',
        'Z' => 'z',
        _ => c,
    }
}

/// ASCII lowercasing of a whole sequence.
pub open spec fn lower_seq(s: Seq<char>) -> Seq<char> {
    s.map_values(|c: char| lower_char(c))
}

/// ASCII-lowercases a string.
pub fn ascii_lower(s: &str) -> (r: String)
    ensures
        r@ == lower_seq(s@),
{
    let n = s.unicode_len();
    let mut out = String::new();
    let mut i: usize = 0;
    proof {
        assert(out@ =~= lower_seq(s@.take(0)));
    }
    while i < n
        invariant
            n == s@.len(),
            0 <= i <= n,
            out@ == lower_seq(s@.take(i as int)),
        decreases n - i,
    {
        let c = lower_char_exec(s.get_char(i));
        string_push_char(&mut out, c);
        proof {
            assert(out@ =~= lower_seq(s@.take(i as int + 1)));
        }
        i += 1;
    }
    proof {
        assert(s@.take(n as int) =~= s@);
    }
    out
}

/// The host with a leading `www.` label removed.
pub open spec fn strip_www(h: Seq<char>) -> Seq<char> {
    if has_prefix(h, "www."@) {
        h.skip(4)
    } else {
        h
    }
}

/// The canonical host a raw URL is judged by: parsed host, `www.` stripped,
/// ASCII-lowercased.
pub open spec fn canonical_host(raw: Seq<char>) -> Option<Seq<char>> {
    match url_host_of(crate::strutil::trimmed(raw)) {
        Some(h) => Some(lower_seq(strip_www(h))),
        None => None,
    }
}

/// The platform label for a canonical host, if the host belongs to one of
/// the recognized services.
pub open spec fn platform_of_host(h: Seq<char>) -> Option<Seq<char>> {
    if spec_host_matches(h, "youtube.com"@) || spec_host_matches(h, "youtu.be"@) {
        Some("youtube"@)
    } else if spec_host_matches(h, "spotify.com"@) {
        Some("spotify"@)
    } else if spec_host_matches(h, "soundcloud.com"@) {
        Some("soundcloud"@)
    } else if spec_host_matches(h, "music.apple.com"@) {
        Some("apple"@)
    } else if spec_host_matches(h, "tiktok.com"@) {
        Some("tiktok"@)
    } else if spec_host_matches(h, "instagram.com"@) {
        Some("instagram"@)
    } else if spec_host_matches(h, "facebook.com"@) || spec_host_matches(h, "fb.watch"@) {
        Some("facebook"@)
    } else {
        None
    }
}

/// The platform a raw URL belongs to, judged by its host; `None` when the
/// URL does not parse, has no host, or belongs to no recognized service.
pub fn parse_url_platform(raw: &str) -> (r: Option<&'static str>)
    ensures
        match canonical_host(raw@) {
            None => r is None,
            Some(h) => match (r, platform_of_host(h)) {
                (Some(a), Some(b)) => a@ == b,
                (None, None) => true,
                _ => false,
            },
        },
{
    let t = trim_str(raw);
    match url_host(t) {
        None => None,
        Some(h) => {
            let stripped: &str = if starts_with_www(h.as_str()) {
                let n = h.as_str().unicode_len();
                h.as_str().substring_char(4, n)
            } else {
                h.as_str()
            };
            proof {
                assert(stripped@ =~= strip_www(h@));
            }
            let canon = ascii_lower(stripped);
            let hs = canon.as_str();
            if host_matches(hs, "youtube.com") || host_matches(hs, "youtu.be") {
                Some("youtube")
            } else if host_matches(hs, "spotify.com") {
                Some("spotify")
            } else if host_matches(hs, "soundcloud.com") {
                Some("soundcloud")
            } else if host_matches(hs, "music.apple.com") {
                Some("apple")
            } else if host_matches(hs, "tiktok.com") {
                Some("tiktok")
            } else if host_matches(hs, "instagram.com") {
                Some("instagram")
            } else if host_matches(hs, "facebook.com") || host_matches(hs, "fb.watch") {
                Some("facebook")
            } else {
                None
            }
        },
    }
}

/// Prefix test for the `www.` label.
fn starts_with_www(h: &str) -> (r: bool)
    ensures
        r == has_prefix(h@, "www."@),
        r ==> h@.len() >= 4,
{
    let r = crate::strutil::starts_with_str(h, "www.");
    proof {
        if r {
            reveal_strlit("www.");
        }
    }
    r
}

/// Whether the query string is itself a web URL rather than a search term.
pub fn looks_like_url(value: &str) -> (r: bool)
    ensures
        r == (match url_scheme_of(value@) {
            Some(s) => s == "http"@ || s == "https"@,
            None => false,
        }),
{
    match url_scheme(value) {
        Some(s) => str_eq(s.as_str(), "http") || str_eq(s.as_str(), "https"),
        None => false,
    }
}

/// The file-name component of a path: everything after the last separator.
pub open spec fn after_last_sep(s: Seq<char>) -> Seq<char>
    decreases s.len(),
{
    if s.len() == 0 {
        s
    } else if s.last() == '/' || s.last() == '\\' {
        Seq::empty()
    } else {
        after_last_sep(s.drop_last()).push(s.last())
    }
}

/// The streaming URL scheme prefix handed to the media protocol.
pub open spec fn stream_url_of(file_path: Option<Seq<char>>) -> Seq<char> {
    match file_path {
        None => Seq::empty(),
        Some(p) => {
            let name = after_last_sep(p);
            if name.len() == 0 {
                Seq::empty()
            } else {
                "lvmedia://localhost/"@ + url_encoded_of(name)
            }
        },
    }
}

/// A cut point after the last separator pins down `after_last_sep`.
proof fn lemma_after_last_sep(s: Seq<char>, c: int)
    requires
        0 <= c <= s.len(),
        c > 0 ==> s[c - 1] == '/' || s[c - 1] == '\\',
        forall|k: int| c <= k < s.len() ==> s[k] != '/' && s[k] != '\\',
    ensures
        after_last_sep(s) == s.subrange(c, s.len() as int),
    decreases s.len(),
{
    if s.len() == 0 {
        assert(after_last_sep(s) =~= s.subrange(c, s.len() as int));
    } else if c == s.len() {
        assert(s.last() == '/' || s.last() == '\\');
        assert(after_last_sep(s) =~= s.subrange(c, s.len() as int));
    } else {
        assert(s[s.len() - 1] != '/' && s[s.len() - 1] != '\\');
        lemma_after_last_sep(s.drop_last(), c);
        assert(after_last_sep(s.drop_last()) == s.drop_last().subrange(
            c,
            s.len() - 1,
        ));
        assert(s.drop_last().subrange(c, s.len() - 1) =~= s.subrange(c, s.len() - 1));
        assert(after_last_sep(s) =~= s.subrange(c, s.len() as int));
    }
}

/// The `lvmedia` URL for a cached media file, or the empty string when the
/// path has no file name to serve.
pub fn stream_url_for_file(file_path: Option<&str>) -> (r: String)
    ensures
        r@ == stream_url_of(file_path.deep_view()),
{
    let p = match file_path {
        None => {
            let r = String::new();
            proof {
                assert(r@ =~= stream_url_of(file_path.deep_view()));
            }
            return r;
        },
        Some(p) => p,
    };
    let n = p.unicode_len();
    // Find the cut just after the last separator.
    let mut c: usize = n;
    loop
        invariant
            n == p@.len(),
            0 <= c <= n,
            forall|k: int| c <= k < n ==> p@[k] != '/' && p@[k] != '\\',
        ensures
            0 <= c <= n,
            forall|k: int| c <= k < n ==> p@[k] != '/' && p@[k] != '\\',
            c > 0 ==> p@[c - 1] == '/' || p@[c - 1] == '\\',
        decreases c,
    {
        if c == 0 {
            break;
        }
        let ch = p.get_char(c - 1);
        if ch == '/' || ch == '\\' {
            break;
        }
        c -= 1;
    }
    proof {
        lemma_after_last_sep(p@, c as int);
    }
    let name = p.substring_char(c, n);
    if name.is_empty() {
        let r = String::new();
        proof {
            assert(r@ =~= stream_url_of(file_path.deep_view()));
        }
        return r;
    }
    let encoded = encode_component(name);
    let mut out = String::from_str("lvmedia://localhost/");
    out.append(encoded.as_str());
    proof {
        assert(out@ =~= stream_url_of(file_path.deep_view()));
    }
    out
}

} // verus!
