//! Request and status shapes of the embedding surface, carried as plain
//! values.

use vstd::prelude::*;

verus! {

/// A lyrics research request for one entity.
pub struct LyricsResearchArgs {
    pub song_id: i64,
    pub model_id: Option<String>,
    pub mode: Option<String>,
}

/// What a lyrics research run reports back.
pub struct LyricsResearchResponse {
    pub status: String,
    pub synced: Option<bool>,
    pub lyrics: Option<String>,
    pub message: Option<String>,
    pub failure_reason: Option<String>,
}

/// A bare key submission.
pub struct ApiKeyRequest {
    pub api_key: String,
}

/// A lyrics-catalog credential submission.
pub struct GeniusCredentialsRequest {
    pub client_id: Option<String>,
    pub client_secret: Option<String>,
    pub access_token: Option<String>,
}

/// A music-catalog credential submission.
pub struct MusicBrainzCredentialsRequest {
    pub username: Option<String>,
    pub password: Option<String>,
}

/// How the research key is reported: configured or not, masked for display.
pub struct GeminiKeyStatus {
    pub configured: bool,
    pub masked_key: Option<String>,
    pub available: bool,
}

/// How the transcription key is reported.
pub struct OpenAIKeyStatus {
    pub configured: bool,
    pub masked_key: Option<String>,
    pub available: bool,
}

/// How the lyrics-catalog credentials are reported, masked for display.
pub struct GeniusCredentialsStatus {
    pub client_id: Option<String>,
    pub client_secret: Option<String>,
    pub access_token: Option<String>,
    pub configured: bool,
}

/// How the music-catalog credentials are reported.
pub struct MusicBrainzCredentialsStatus {
    pub username: Option<String>,
    pub configured: bool,
}

/// The two lyrics policies.
pub struct LyricsMode {
    pub strict_lrc: bool,
    pub allow_explicit: bool,
}

/// A model selection request.
pub struct ModelRequest {
    pub model_id: String,
    pub mode: Option<String>,
}

} // verus!
