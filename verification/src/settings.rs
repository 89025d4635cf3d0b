//! The settings store, as a value: the parsed settings with typed fields.
//! Reading and writing the backing file happens at the edge; every rule —
//! secret normalization and obfuscation, key-shape checks, model selection,
//! defaults — lives here.

use crate::errors::SettingsError;
use crate::strutil::{has_prefix, starts_with_str, str_eq, string_push_char, trim_str, trimmed};
use vstd::prelude::*;
use vstd::string::{StrSliceExecFns, StringExecFns};
use vstd::utf8::encode_utf8;

use base64::Engine as _;

verus! {

/// Marker under which platform-protected secrets are stored.
pub const DPAPI_PREFIX: &'static str = "dpapi:";

/// The model selected when none is stored or the stored one is unknown.
pub const DEFAULT_MODEL: &'static str = "gemini-2.0-flash";

/// What the base64 engine makes of a byte string.
pub uninterp spec fn base64_of(b: Seq<u8>) -> Seq<char>;

/// Relies on the base64 crate's standard engine: encodes the bytes; the
/// result is a function of the bytes alone.
#[verifier::external_body]
fn b64_encode(bytes: &[u8]) -> (r: String)
    ensures
        r@ == base64_of(bytes@),
{
    base64::engine::general_purpose::STANDARD.encode(bytes)
}

/// Relies on the base64 crate's standard engine: with canonical padding
/// required and trailing bits rejected, decoding accepts exactly the
/// canonical encodings, so decoding an encoding yields the original bytes
/// and every successful decode re-encodes to the input.
#[verifier::external_body]
fn b64_decode(s: &str) -> (r: Option<Vec<u8>>)
    ensures
        forall|b: Seq<u8>| s@ == base64_of(b) ==> r is Some && r->0@ == b,
        r is Some ==> base64_of(r->0@) == s@,
{
    base64::engine::general_purpose::STANDARD.decode(s.as_bytes()).ok()
}

/// Relies on `String::from_utf8` from std: bytes that are the UTF-8
/// encoding of a text decode to exactly that text; invalid UTF-8 fails.
#[verifier::external_body]
fn string_from_utf8(b: Vec<u8>) -> (r: Option<String>)
    ensures
        forall|cs: Seq<char>| b@ == encode_utf8(cs) ==> r is Some && r->0@ == cs,
{
    String::from_utf8(b).ok()
}

/// The stored form of a secret: base64 over its UTF-8 bytes. (On platforms
/// with a secret-protection service the original form is used instead; this
/// build always falls back to base64.)
pub open spec fn spec_obfuscate(s: Seq<char>) -> Seq<char> {
    base64_of(encode_utf8(s))
}

/// Platform secret protection. Unavailable on this platform: always fails,
/// which makes `obfuscate` fall back to base64.
pub fn dpapi_protect(plaintext: &str) -> (r: Result<String, SettingsError>)
    ensures
        (r matches Err(SettingsError::Dpapi(m)) && m@ == "DPAPI unavailable on this platform"@),
{
    let _ = plaintext;
    Err(SettingsError::Dpapi(String::from_str("DPAPI unavailable on this platform")))
}

/// Platform secret recovery. Unavailable on this platform: always fails,
/// so `dpapi:`-prefixed values cannot be read here.
pub fn dpapi_unprotect(ciphertext_b64: &str) -> (r: Result<String, SettingsError>)
    ensures
        (r matches Err(SettingsError::Dpapi(m)) && m@ == "DPAPI unavailable on this platform"@),
{
    let _ = ciphertext_b64;
    Err(SettingsError::Dpapi(String::from_str("DPAPI unavailable on this platform")))
}

/// Stores a secret: protected by the platform service where available,
/// otherwise base64 over the trimmed text; an empty secret is rejected.
pub fn obfuscate(value: &str) -> (r: Result<String, SettingsError>)
    ensures
        trimmed(value@).len() == 0 ==> (r matches Err(SettingsError::Invalid(m)) && m@
            == "secret value cannot be empty"@),
        trimmed(value@).len() > 0 ==> (r matches Ok(v) && v@ == spec_obfuscate(trimmed(value@))),
{
    let normalized = trim_str(value);
    if normalized.is_empty() {
        return Err(SettingsError::Invalid(String::from_str("secret value cannot be empty")));
    }
    match dpapi_protect(normalized) {
        Ok(encrypted) => {
            let mut out = String::from_str(DPAPI_PREFIX);
            out.append(encrypted.as_str());
            Ok(out)
        },
        Err(_) => Ok(b64_encode(normalized.as_bytes())),
    }
}

/// Recovers a stored secret: `dpapi:`-prefixed values go to the platform
/// service (unavailable here); anything else must be canonical base64 of
/// UTF-8 text. Decoding an `obfuscate` result yields the original secret.
pub fn deobfuscate(value: &str) -> (r: Result<String, SettingsError>)
    ensures
        !has_prefix(value@, "dpapi:"@) ==> forall|s: Seq<char>|
            value@ == spec_obfuscate(s) ==> r is Ok && r->Ok_0@ == s,
        has_prefix(value@, "dpapi:"@) ==> r is Err,
{
    let prefixed = starts_with_str(value, "dpapi:");
    proof {
        reveal_strlit("dpapi:");
    }
    if prefixed {
        let n = value.unicode_len();
        let ciphertext = value.substring_char(6, n);
        return dpapi_unprotect(ciphertext);
    }
    match b64_decode(value) {
        Some(bytes) => match string_from_utf8(bytes) {
            Some(text) => Ok(text),
            None => Err(SettingsError::SecretDecode),
        },
        None => Err(SettingsError::SecretDecode),
    }
}

/// The cleaned form of a secret offered by a caller or found in the
/// environment: trimmed, one layer of matching quotes stripped, trimmed
/// again; empty results count as absent.
pub open spec fn spec_normalize_secret(s: Seq<char>) -> Option<Seq<char>> {
    let t = trimmed(s);
    if t.len() == 0 {
        None
    } else if t.len() >= 2 && ((t.first() == '"' && t.last() == '"') || (t.first() == '\''
        && t.last() == '\'')) {
        let u = trimmed(t.subrange(1, t.len() - 1));
        if u.len() == 0 {
            None
        } else {
            Some(u)
        }
    } else {
        Some(t)
    }
}

/// A cleaned secret is non-empty and its own trimming.
pub proof fn lemma_normalize_secret_trimmed(s: Seq<char>)
    ensures
        match spec_normalize_secret(s) {
            Some(u) => trimmed(u) == u && u.len() > 0,
            None => true,
        },
{
    crate::strutil::lemma_trimmed_idempotent(s);
    let t = trimmed(s);
    if t.len() >= 2 && ((t.first() == '"' && t.last() == '"') || (t.first() == '\''
        && t.last() == '\'')) {
        crate::strutil::lemma_trimmed_idempotent(t.subrange(1, t.len() - 1));
    }
}

/// Cleans a secret; see [`spec_normalize_secret`].
pub fn normalize_secret(value: Option<&str>) -> (r: Option<String>)
    ensures
        match value.deep_view() {
            Some(v) => r.deep_view() == spec_normalize_secret(v),
            None => r is None,
        },
{
    let v = match value {
        Some(v) => v,
        None => {
            return None;
        },
    };
    let t = trim_str(v);
    let n = t.unicode_len();
    if n == 0 {
        return None;
    }
    let quoted = n >= 2 && ((t.get_char(0) == '"' && t.get_char(n - 1) == '"') || (t.get_char(0)
        == '\'' && t.get_char(n - 1) == '\''));
    if quoted {
        let inner = t.substring_char(1, n - 1);
        let u = trim_str(inner);
        if u.is_empty() {
            None
        } else {
            Some(u.to_owned())
        }
    } else {
        Some(t.to_owned())
    }
}

/// A character the key shape allows after the prefix.
pub open spec fn is_key_char(c: char) -> bool {
    ('a' <= c && c <= 'z') || ('A' <= c && c <= 'Z') || ('0' <= c && c <= '9') || c == '_' || c
        == '-'
}

/// Executable test matching [`is_key_char`].
fn key_char_test(c: char) -> (r: bool)
    ensures
        r == is_key_char(c),
{
    ('a' <= c && c <= 'z') || ('A' <= c && c <= 'Z') || ('0' <= c && c <= '9') || c == '_' || c
        == '-'
}

/// The full shape of a stored research key: the fixed prefix followed by at
/// least thirty characters of the key alphabet.
pub open spec fn spec_looks_like_gemini_key(o: Option<Seq<char>>) -> bool {
    match o {
        Some(v) => v.len() >= 34 && has_prefix(v, "AIza"@) && forall|i: int|
            4 <= i < v.len() ==> is_key_char(#[trigger] v[i]),
        None => false,
    }
}

/// Whether a cleaned secret has the full shape of a research key.
pub fn looks_like_gemini_key(value: Option<&str>) -> (r: bool)
    ensures
        r == spec_looks_like_gemini_key(value.deep_view()),
{
    let v = match value {
        Some(v) => v,
        None => {
            return false;
        },
    };
    let n = v.unicode_len();
    if n < 34 {
        return false;
    }
    if !starts_with_str(v, "AIza") {
        return false;
    }
    let mut i: usize = 4;
    while i < n
        invariant
            4 <= i <= n,
            n == v@.len(),
            value.deep_view() == Some(v@),
            n >= 34,
            has_prefix(v@, "AIza"@),
            forall|k: int| 4 <= k < i ==> is_key_char(#[trigger] v@[k]),
        decreases n - i,
    {
        if !key_char_test(v.get_char(i)) {
            proof {
                assert(!is_key_char(v@[i as int]));
            }
            return false;
        }
        i += 1;
    }
    true
}

/// A sequence of `n` mask characters.
pub open spec fn stars(n: int) -> Seq<char> {
    Seq::new(n as nat, |i: int| '*')
}

/// How a secret is shown: nothing for an absent or blank value, a fixed
/// mask for short values, and the first and last four characters around a
/// mask of the rest otherwise.
pub open spec fn spec_mask_secret(value: Option<Seq<char>>) -> Option<Seq<char>> {
    match value {
        None => None,
        Some(v) => {
            let t = trimmed(v);
            if t.len() == 0 {
                None
            } else if t.len() <= 8 {
                Some("****"@)
            } else {
                Some(t.take(4) + stars(t.len() - 8) + t.skip(t.len() - 4))
            }
        },
    }
}

/// Masks a secret for display; see [`spec_mask_secret`].
pub fn mask_secret(value: Option<&str>) -> (r: Option<String>)
    ensures
        r.deep_view() == spec_mask_secret(value.deep_view()),
{
    let v = match value {
        Some(v) => v,
        None => {
            return None;
        },
    };
    let t = trim_str(v);
    let n = t.unicode_len();
    if n == 0 {
        return None;
    }
    if n <= 8 {
        return Some("****".to_owned());
    }
    let mut out = t.substring_char(0, 4).to_owned();
    proof {
        assert(out@ =~= t@.take(4) + stars(0));
    }
    let mut i: usize = 0;
    while i < n - 8
        invariant
            8 < n == t@.len(),
            0 <= i <= n - 8,
            out@ == t@.take(4) + stars(i as int),
        decreases n - 8 - i,
    {
        string_push_char(&mut out, '*');
        proof {
            assert(out@ =~= t@.take(4) + stars(i as int + 1));
        }
        i += 1;
    }
    let tail = t.substring_char(n - 4, n);
    out.append(tail);
    proof {
        assert(out@ =~= t@.take(4) + stars(n as int - 8) + t@.skip(n as int - 4));
    }
    Some(out)
}

/// Self-update bookkeeping for the bundled downloader.
pub struct YtdlpState {
    pub last_known_good_version: Option<String>,
    pub last_checked_at: Option<String>,
    pub last_update_status: Option<String>,
    pub last_update_error: Option<String>,
    pub last_smoke_test_ok: Option<bool>,
}

/// One selectable research model, with its display metadata.
pub struct ModelOption {
    pub id: String,
    pub name: String,
    pub description: String,
    pub rate_limit: String,
    pub pricing: String,
    pub cost_per_song: String,
    pub tier: String,
    pub lifecycle: String,
}

/// The model table and the current selection.
pub struct ModelsResponse {
    pub models: Vec<ModelOption>,
    pub selected: String,
}

/// The catalog of selectable models: identifiers and lifecycles are pinned
/// here; the stable default sits last.
pub fn available_models() -> (r: Vec<ModelOption>)
    ensures
        r@.len() == 4,
        r@[0].id@ == "gemini-3-pro-preview"@ && r@[0].lifecycle@ == "preview"@,
        r@[1].id@ == "gemini-3-flash-preview"@ && r@[1].lifecycle@ == "preview"@,
        r@[2].id@ == "gemini-2.5-flash"@ && r@[2].lifecycle@ == "stable"@,
        r@[3].id@ == "gemini-2.0-flash"@ && r@[3].lifecycle@ == "stable"@,
{
    let mut models: Vec<ModelOption> = Vec::new();
    models.push(
        ModelOption {
            id: String::from_str("gemini-3-pro-preview"),
            name: String::from_str("Gemini 3.0 Pro"),
            description: String::from_str("Highest quality output - best for complex lyrics"),
            rate_limit: String::from_str("5 RPM / 200 RPD"),
            pricing: String::from_str("$3.50 / 1M tokens"),
            cost_per_song: String::from_str("~$0.04 / song"),
            tier: String::from_str("quality"),
            lifecycle: String::from_str("preview"),
        },
    );
    models.push(
        ModelOption {
            id: String::from_str("gemini-3-flash-preview"),
            name: String::from_str("Gemini 3.0 Flash"),
            description: String::from_str("Next-gen speed and efficiency"),
            rate_limit: String::from_str("15 RPM / 1,500 RPD"),
            pricing: String::from_str("$0.075 / 1M tokens"),
            cost_per_song: String::from_str("< $0.01 / song"),
            tier: String::from_str("preview"),
            lifecycle: String::from_str("preview"),
        },
    );
    models.push(
        ModelOption {
            id: String::from_str("gemini-2.5-flash"),
            name: String::from_str("Gemini 2.5 Flash"),
            description: String::from_str("Balanced performance and latency"),
            rate_limit: String::from_str("15 RPM / 1,500 RPD"),
            pricing: String::from_str("$0.075 / 1M tokens"),
            cost_per_song: String::from_str("< $0.01 / song"),
            tier: String::from_str("fast"),
            lifecycle: String::from_str("stable"),
        },
    );
    models.push(
        ModelOption {
            id: String::from_str("gemini-2.0-flash"),
            name: String::from_str("Gemini 2.0 Flash"),
            description: String::from_str("Stable and reliable - current standard"),
            rate_limit: String::from_str("15 RPM / 1,500 RPD"),
            pricing: String::from_str("$0.075 / 1M tokens"),
            cost_per_song: String::from_str("< $0.01 / song"),
            tier: String::from_str("recommended"),
            lifecycle: String::from_str("stable"),
        },
    );
    models
}

/// Whether a model identifier names a catalog entry.
pub open spec fn spec_known_model(id: Seq<char>) -> bool {
    id == "gemini-3-pro-preview"@ || id == "gemini-3-flash-preview"@ || id == "gemini-2.5-flash"@
        || id == "gemini-2.0-flash"@
}

/// Executable catalog membership test.
fn known_model(id: &str) -> (r: bool)
    ensures
        r == spec_known_model(id@),
{
    str_eq(id, "gemini-3-pro-preview") || str_eq(id, "gemini-3-flash-preview") || str_eq(
        id,
        "gemini-2.5-flash",
    ) || str_eq(id, "gemini-2.0-flash")
}

/// The settings, as a value. Secrets are held in their stored (obfuscated)
/// form; loading them from and saving them to the backing file is the
/// caller's concern.
pub struct SettingsStore {
    pub gemini_api_key: Option<String>,
    pub openai_api_key: Option<String>,
    pub genius_client_id: Option<String>,
    pub genius_client_secret: Option<String>,
    pub genius_access_token: Option<String>,
    pub musicbrainz_username: Option<String>,
    pub musicbrainz_password: Option<String>,
    pub strict_lrc: Option<bool>,
    pub allow_explicit: Option<bool>,
    pub gemini_model: Option<String>,
    pub ytdlp_state: Option<YtdlpState>,
}

/// Credentials for the lyrics catalog service.
pub struct GeniusCredentials {
    pub client_id: Option<String>,
    pub client_secret: Option<String>,
    pub access_token: Option<String>,
}

impl SettingsStore {
    /// A store with nothing set: every getter answers its default.
    pub fn empty() -> (r: Self)
        ensures
            r.gemini_api_key is None,
            r.openai_api_key is None,
            r.genius_client_id is None,
            r.genius_client_secret is None,
            r.genius_access_token is None,
            r.musicbrainz_username is None,
            r.musicbrainz_password is None,
            r.strict_lrc is None,
            r.allow_explicit is None,
            r.gemini_model is None,
            r.ytdlp_state is None,
    {
        SettingsStore {
            gemini_api_key: None,
            openai_api_key: None,
            genius_client_id: None,
            genius_client_secret: None,
            genius_access_token: None,
            musicbrainz_username: None,
            musicbrainz_password: None,
            strict_lrc: None,
            allow_explicit: None,
            gemini_model: None,
            ytdlp_state: None,
        }
    }

    /// The research key, if a stored or environment-supplied value has the
    /// full key shape. A stored value that fails the shape check is dropped
    /// (the caller persists the removal) before the environment is tried.
    pub fn get_gemini_api_key(&mut self, env_key: Option<&str>) -> (r: Result<
        Option<String>,
        SettingsError,
    >)
        ensures
            r is Ok,
            old(self).gemini_api_key is None ==> *final(self) == *old(self) && (
            env_key.deep_view() matches Some(e) ==> r->Ok_0.deep_view() == (
            if spec_looks_like_gemini_key(spec_normalize_secret(e)) {
                spec_normalize_secret(e)
            } else {
                None::<Seq<char>>
            })) && (env_key is None ==> r->Ok_0 is None),
            forall|s: Seq<char>|
                old(self).gemini_api_key.deep_view() == Some::<Seq<char>>(spec_obfuscate(s))
                    && !has_prefix(spec_obfuscate(s), "dpapi:"@) && spec_looks_like_gemini_key(
                    spec_normalize_secret(s),
                ) ==> *final(self) == *old(self) && r->Ok_0.deep_view() == spec_normalize_secret(s),
    {
        let stored = match &self.gemini_api_key {
            Some(st) => Some(st.clone()),
            None => None,
        };
        if let Some(st) = stored {
            let key = match deobfuscate(st.as_str()) {
                Ok(k) => k,
                Err(_) => st.clone(),
            };
            let normalized = normalize_secret(Some(key.as_str()));
            let keep = looks_like_gemini_key(
                match &normalized {
                    Some(v) => Some(v.as_str()),
                    None => None,
                },
            );
            if keep {
                return Ok(normalized);
            }
            self.gemini_api_key = None;
        }
        let env_normalized = normalize_secret(env_key);
        let keep_env = looks_like_gemini_key(
            match &env_normalized {
                Some(v) => Some(v.as_str()),
                None => None,
            },
        );
        if keep_env {
            Ok(env_normalized)
        } else {
            Ok(None)
        }
    }

    /// Stores the research key, obfuscated; an empty key is rejected.
    pub fn set_gemini_api_key(&mut self, key: &str) -> (r: Result<(), SettingsError>)
        ensures
            match spec_normalize_secret(key@) {
                None => (r matches Err(SettingsError::Invalid(m)) && m@
                    == "API key cannot be empty"@) && *final(self) == *old(self),
                Some(n) => {
                    &&& r is Ok
                    &&& final(self).gemini_api_key.deep_view() == Some(spec_obfuscate(trimmed(n)))
                    &&& final(self).openai_api_key == old(self).openai_api_key
                    &&& final(self).strict_lrc == old(self).strict_lrc
                    &&& final(self).gemini_model == old(self).gemini_model
                },
            },
    {
        let normalized = match normalize_secret(Some(key)) {
            Some(n) => n,
            None => {
                return Err(SettingsError::Invalid(String::from_str("API key cannot be empty")));
            },
        };
        proof {
            lemma_normalize_secret_trimmed(key@);
        }
        match obfuscate(normalized.as_str()) {
            Ok(stored) => {
                self.gemini_api_key = Some(stored);
                Ok(())
            },
            Err(e) => Err(e),
        }
    }

    /// Forgets the stored research key.
    pub fn delete_gemini_api_key(&mut self)
        ensures
            final(self).gemini_api_key is None,
            final(self).openai_api_key == old(self).openai_api_key,
            final(self).strict_lrc == old(self).strict_lrc,
    {
        self.gemini_api_key = None;
    }

    /// The transcription key: the stored value if present (decoded, with a
    /// plain legacy value accepted), else the environment's.
    pub fn get_openai_api_key(&self, env_key: Option<&str>) -> (r: Result<
        Option<String>,
        SettingsError,
    >)
        ensures
            r is Ok,
            self.openai_api_key is None ==> (env_key.deep_view() matches Some(e)
                ==> r->Ok_0.deep_view() == spec_normalize_secret(e)) && (env_key is None
                ==> r->Ok_0 is None),
            forall|s: Seq<char>|
                self.openai_api_key.deep_view() == Some::<Seq<char>>(spec_obfuscate(s))
                    && !has_prefix(spec_obfuscate(s), "dpapi:"@) ==> r->Ok_0.deep_view()
                    == spec_normalize_secret(s),
    {
        match &self.openai_api_key {
            Some(st) => {
                let key = match deobfuscate(st.as_str()) {
                    Ok(k) => k,
                    Err(_) => st.clone(),
                };
                Ok(normalize_secret(Some(key.as_str())))
            },
            None => Ok(normalize_secret(env_key)),
        }
    }

    /// Stores the transcription key, obfuscated; an empty key is rejected.
    pub fn set_openai_api_key(&mut self, key: &str) -> (r: Result<(), SettingsError>)
        ensures
            match spec_normalize_secret(key@) {
                None => (r matches Err(SettingsError::Invalid(m)) && m@
                    == "API key cannot be empty"@) && *final(self) == *old(self),
                Some(n) => {
                    &&& r is Ok
                    &&& final(self).openai_api_key.deep_view() == Some(spec_obfuscate(trimmed(n)))
                    &&& final(self).gemini_api_key == old(self).gemini_api_key
                },
            },
    {
        let normalized = match normalize_secret(Some(key)) {
            Some(n) => n,
            None => {
                return Err(SettingsError::Invalid(String::from_str("API key cannot be empty")));
            },
        };
        proof {
            lemma_normalize_secret_trimmed(key@);
        }
        match obfuscate(normalized.as_str()) {
            Ok(stored) => {
                self.openai_api_key = Some(stored);
                Ok(())
            },
            Err(e) => Err(e),
        }
    }

    /// Forgets the stored transcription key.
    pub fn delete_openai_api_key(&mut self)
        ensures
            final(self).openai_api_key is None,
            final(self).gemini_api_key == old(self).gemini_api_key,
    {
        self.openai_api_key = None;
    }

    /// The lyrics-catalog credentials: per field, the stored value decoded
    /// (a plain legacy value is cleaned and accepted), else the
    /// environment's, cleaned.
    pub fn get_genius_credentials(
        &self,
        env_id: Option<&str>,
        env_secret: Option<&str>,
        env_token: Option<&str>,
    ) -> (r: Result<GeniusCredentials, SettingsError>)
        ensures
            r is Ok,
            forall|s: Seq<char>|
                self.genius_access_token.deep_view() == Some::<Seq<char>>(spec_obfuscate(s))
                    && !has_prefix(spec_obfuscate(s), "dpapi:"@) ==> r->Ok_0.access_token.deep_view()
                    == Some(s),
            self.genius_access_token is None && env_token is None ==> r->Ok_0.access_token is None,
    {
        let client_id = Self::credential_field(&self.genius_client_id, env_id);
        let client_secret = Self::credential_field(&self.genius_client_secret, env_secret);
        let access_token = Self::credential_field(&self.genius_access_token, env_token);
        Ok(GeniusCredentials { client_id, client_secret, access_token })
    }

    /// One credential field: the stored value decoded, a plain legacy value
    /// cleaned, else the environment value cleaned.
    fn credential_field(stored: &Option<String>, env: Option<&str>) -> (r: Option<String>)
        ensures
            forall|s: Seq<char>|
                stored.deep_view() == Some::<Seq<char>>(spec_obfuscate(s)) && !has_prefix(
                    spec_obfuscate(s),
                    "dpapi:"@,
                ) ==> (r matches Some(v) && v@ == s),
            stored is None && env is None ==> r is None,
            stored is None ==> (env.deep_view() matches Some(e) ==> r.deep_view()
                == spec_normalize_secret(e)),
    {
        match stored {
            Some(st) => match deobfuscate(st.as_str()) {
                Ok(k) => Some(k),
                Err(_) => normalize_secret(Some(st.as_str())),
            },
            None => normalize_secret(env),
        }
    }

    /// Stores whichever lyrics-catalog credentials the request carries,
    /// obfuscated; a blank token is ignored, a blank identifier or secret
    /// is rejected by the obfuscation step.
    pub fn set_genius_credentials(
        &mut self,
        client_id: Option<&str>,
        client_secret: Option<&str>,
        access_token: Option<&str>,
    ) -> (r: Result<(), SettingsError>)
        ensures
            r is Ok ==> {
                &&& (client_id.deep_view() matches Some(v) ==> (trimmed(v).len() > 0
                    ==> final(self).genius_client_id.deep_view() == Some(
                    spec_obfuscate(trimmed(v)),
                )))
                &&& (access_token.deep_view() matches Some(v) ==> (
                match spec_normalize_secret(v) {
                    Some(n) => final(self).genius_access_token.deep_view() == Some(
                        spec_obfuscate(trimmed(n)),
                    ),
                    None => final(self).genius_access_token == old(self).genius_access_token,
                }))
                &&& (client_id is None ==> final(self).genius_client_id == old(
                    self,
                ).genius_client_id)
            },
    {
        if let Some(id) = client_id {
            let t = trim_str(id);
            match obfuscate(t) {
                Ok(v) => {
                    proof {
                        crate::strutil::lemma_trimmed_idempotent(id@);
                    }
                    self.genius_client_id = Some(v);
                },
                Err(e) => {
                    return Err(e);
                },
            }
        }
        if let Some(secret) = client_secret {
            let t = trim_str(secret);
            match obfuscate(t) {
                Ok(v) => {
                    self.genius_client_secret = Some(v);
                },
                Err(e) => {
                    return Err(e);
                },
            }
        }
        if let Some(token) = access_token {
            proof {
                lemma_normalize_secret_trimmed(token@);
            }
            if let Some(n) = normalize_secret(Some(token)) {
                match obfuscate(n.as_str()) {
                    Ok(v) => {
                        self.genius_access_token = Some(v);
                    },
                    Err(e) => {
                        return Err(e);
                    },
                }
            }
        }
        Ok(())
    }

    /// Forgets every stored lyrics-catalog credential.
    pub fn delete_genius_credentials(&mut self)
        ensures
            final(self).genius_client_id is None,
            final(self).genius_client_secret is None,
            final(self).genius_access_token is None,
            final(self).gemini_api_key == old(self).gemini_api_key,
    {
        self.genius_client_id = None;
        self.genius_client_secret = None;
        self.genius_access_token = None;
    }

    /// The stored catalog username, as stored.
    pub fn get_musicbrainz_username(&self) -> (r: Option<String>)
        ensures
            r == self.musicbrainz_username,
    {
        crate::job::clone_opt_string(&self.musicbrainz_username)
    }

    /// Stores the catalog username plain and its password obfuscated.
    pub fn set_musicbrainz_credentials(&mut self, username: &str, password: &str) -> (r: Result<
        (),
        SettingsError,
    >)
        ensures
            r is Ok ==> final(self).musicbrainz_username.deep_view() == Some(username@) && (
            trimmed(password@).len() > 0 ==> final(self).musicbrainz_password.deep_view() == Some(
                spec_obfuscate(trimmed(password@)),
            )),
    {
        let stored_password = match obfuscate(password) {
            Ok(v) => v,
            Err(e) => {
                return Err(e);
            },
        };
        self.musicbrainz_username = Some(username.to_owned());
        self.musicbrainz_password = Some(stored_password);
        Ok(())
    }

    /// Forgets the stored catalog credentials.
    pub fn delete_musicbrainz_credentials(&mut self)
        ensures
            final(self).musicbrainz_username is None,
            final(self).musicbrainz_password is None,
    {
        self.musicbrainz_username = None;
        self.musicbrainz_password = None;
    }

    /// The strict-sync policy; strict unless explicitly disabled.
    pub fn get_strict_lrc_mode(&self) -> (r: bool)
        ensures
            r == (match self.strict_lrc {
                Some(v) => v,
                None => true,
            }),
    {
        match self.strict_lrc {
            Some(v) => v,
            None => true,
        }
    }

    /// The explicit-content policy; off unless explicitly enabled.
    pub fn get_allow_explicit(&self) -> (r: bool)
        ensures
            r == (match self.allow_explicit {
                Some(v) => v,
                None => false,
            }),
    {
        match self.allow_explicit {
            Some(v) => v,
            None => false,
        }
    }

    /// Sets both lyrics policies.
    pub fn set_lyrics_mode(&mut self, strict: bool, explicit: bool)
        ensures
            final(self).strict_lrc == Some(strict),
            final(self).allow_explicit == Some(explicit),
            final(self).gemini_api_key == old(self).gemini_api_key,
            final(self).gemini_model == old(self).gemini_model,
    {
        self.strict_lrc = Some(strict);
        self.allow_explicit = Some(explicit);
    }

    /// The model catalog.
    pub fn get_available_models(&self) -> (r: Vec<ModelOption>)
        ensures
            r@.len() == 4,
            r@[2].id@ == "gemini-2.5-flash"@ && r@[2].lifecycle@ == "stable"@,
    {
        available_models()
    }

    /// The catalog entry for an identifier, if it names one.
    pub fn get_model_metadata(&self, model_id: &str) -> (r: Option<ModelOption>)
        ensures
            r is Some <==> spec_known_model(model_id@),
            r matches Some(m) ==> m.id@ == model_id@,
    {
        let models = available_models();
        let n = models.len();
        let mut i: usize = 0;
        while i < n
            invariant
                0 <= i <= n,
                n == models@.len(),
                n == 4,
                models@[0].id@ == "gemini-3-pro-preview"@,
                models@[1].id@ == "gemini-3-flash-preview"@,
                models@[2].id@ == "gemini-2.5-flash"@,
                models@[3].id@ == "gemini-2.0-flash"@,
                forall|k: int| 0 <= k < i ==> (#[trigger] models@[k]).id@ != model_id@,
            decreases n - i,
        {
            if str_eq(models[i].id.as_str(), model_id) {
                let mut picked = available_models();
                let found = picked.remove(i);
                return Some(found);
            }
            i += 1;
        }
        None
    }

    /// The first stable model of the catalog.
    pub fn get_stable_gemini_model(&self) -> (r: String)
        ensures
            r@ == "gemini-2.5-flash"@,
    {
        String::from_str("gemini-2.5-flash")
    }

    /// The selected model: the stored choice when it names a catalog entry;
    /// otherwise the default is stored (for the caller to persist) and
    /// returned.
    pub fn get_gemini_model(&mut self) -> (r: String)
        ensures
            ({
                let chosen = match old(self).gemini_model {
                    Some(v) => v@,
                    None => "gemini-2.0-flash"@,
                };
                if spec_known_model(chosen) {
                    r@ == chosen && *final(self) == *old(self)
                } else {
                    r@ == "gemini-2.0-flash"@ && final(self).gemini_model.deep_view() == Some(
                        "gemini-2.0-flash"@,
                    )
                }
            }),
    {
        let selected = match &self.gemini_model {
            Some(v) => v.clone(),
            None => String::from_str(DEFAULT_MODEL),
        };
        if known_model(selected.as_str()) {
            return selected;
        }
        self.gemini_model = Some(String::from_str(DEFAULT_MODEL));
        String::from_str(DEFAULT_MODEL)
    }

    /// Selects a model; unknown identifiers are rejected.
    pub fn set_gemini_model(&mut self, model_id: &str) -> (r: Result<(), SettingsError>)
        ensures
            spec_known_model(model_id@) ==> r is Ok && final(self).gemini_model.deep_view()
                == Some(model_id@),
            !spec_known_model(model_id@) ==> (r matches Err(SettingsError::Invalid(m)) && m@
                == "Unknown model: "@ + model_id@) && *final(self) == *old(self),
    {
        if !known_model(model_id) {
            let mut m = String::from_str("Unknown model: ");
            m.append(model_id);
            return Err(SettingsError::Invalid(m));
        }
        self.gemini_model = Some(model_id.to_owned());
        Ok(())
    }

    /// The model catalog together with the current selection.
    pub fn get_models_response(&mut self) -> (r: ModelsResponse)
        ensures
            r.models@.len() == 4,
            ({
                let chosen = match old(self).gemini_model {
                    Some(v) => v@,
                    None => "gemini-2.0-flash"@,
                };
                r.selected@ == if spec_known_model(chosen) {
                    chosen
                } else {
                    "gemini-2.0-flash"@
                }
            }),
    {
        let selected = self.get_gemini_model();
        ModelsResponse { models: available_models(), selected }
    }

    /// The downloader bookkeeping, with absent fields defaulted.
    pub fn get_ytdlp_state(&self) -> (r: YtdlpState)
        ensures
            match &self.ytdlp_state {
                Some(st) => r.last_known_good_version == st.last_known_good_version
                    && r.last_checked_at == st.last_checked_at && r.last_update_status
                    == st.last_update_status && r.last_update_error == st.last_update_error
                    && r.last_smoke_test_ok == st.last_smoke_test_ok,
                None => r.last_known_good_version is None && r.last_checked_at is None
                    && r.last_update_status is None && r.last_update_error is None
                    && r.last_smoke_test_ok is None,
            },
    {
        match &self.ytdlp_state {
            Some(st) => YtdlpState {
                last_known_good_version: crate::job::clone_opt_string(&st.last_known_good_version),
                last_checked_at: crate::job::clone_opt_string(&st.last_checked_at),
                last_update_status: crate::job::clone_opt_string(&st.last_update_status),
                last_update_error: crate::job::clone_opt_string(&st.last_update_error),
                last_smoke_test_ok: st.last_smoke_test_ok,
            },
            None => YtdlpState {
                last_known_good_version: None,
                last_checked_at: None,
                last_update_status: None,
                last_update_error: None,
                last_smoke_test_ok: None,
            },
        }
    }

    /// Replaces the downloader bookkeeping.
    pub fn set_ytdlp_state(&mut self, state: YtdlpState)
        ensures
            (final(self).ytdlp_state matches Some(st) && st.last_known_good_version
                == state.last_known_good_version && st.last_checked_at == state.last_checked_at
                && st.last_update_status == state.last_update_status && st.last_update_error
                == state.last_update_error && st.last_smoke_test_ok == state.last_smoke_test_ok),
            final(self).gemini_api_key == old(self).gemini_api_key,
    {
        self.ytdlp_state = Some(state);
    }
}

} // verus!
