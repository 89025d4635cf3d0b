//! Media search planning: deciding, from the query and the requested
//! platform, whether a search hits the external helper, resolves a direct
//! URL, or runs a platform search term — and the downloader status report.

use crate::settings::YtdlpState;
use crate::strutil::{str_eq, trim_str, trimmed};
use crate::urlkit::{ascii_lower, lower_seq, url_scheme_of};
use vstd::prelude::*;
use vstd::string::{StrSliceExecFns, StringExecFns};

verus! {

/// A search request.
pub struct SearchArgs {
    pub q: String,
    pub platform: Option<String>,
    pub social_sources: Option<String>,
}

/// One search hit.
pub struct SearchResult {
    pub id: String,
    pub title: String,
    pub artist: Option<String>,
    pub uploader: Option<String>,
    pub url: String,
    pub duration: Option<i64>,
    pub thumbnail: Option<String>,
    pub platform: String,
}

/// The downloader status report.
pub struct YtdlpStatus {
    pub version: Option<String>,
    pub self_update_allowed: bool,
    pub self_update_supported: bool,
    pub last_known_good_version: Option<String>,
    pub last_checked_at: Option<String>,
    pub last_update_status: Option<String>,
    pub last_update_error: Option<String>,
    pub last_smoke_test_ok: Option<bool>,
}

/// How a search request is executed.
pub enum SearchPlan {
    /// A blank query: answer with no results and call nothing.
    Empty,
    /// A social-platform search: delegate to the external helper.
    Bridge,
    /// The query is itself a URL: resolve it directly, under the hinted
    /// platform.
    ByUrl { query: String, platform: String },
    /// An ordinary search: run the given search term, reporting hits under
    /// the platform label.
    Term { search_term: String, platform: String },
}

/// The canonical platform label of a request: the requested platform or
/// the default, trimmed and lowercased.
pub open spec fn spec_platform_label(platform: Option<Seq<char>>) -> Seq<char> {
    match platform {
        Some(p) => lower_seq(trimmed(p)),
        None => "youtube"@,
    }
}

/// Whether the platform label is searched through the external helper.
pub open spec fn spec_social_platform(p: Seq<char>) -> bool {
    p == "social"@ || p == "tiktok"@ || p == "instagram"@ || p == "facebook"@
}

/// The search term a platform label maps a plain query to.
pub open spec fn spec_search_term(p: Seq<char>, q: Seq<char>) -> Seq<char> {
    if p == "soundcloud"@ {
        "scsearch5:"@ + q
    } else {
        "ytsearch5:"@ + q
    }
}

/// What the plan for a request must be.
pub open spec fn spec_search_plan(q: Seq<char>, platform: Option<Seq<char>>, r: SearchPlan) -> bool {
    let tq = trimmed(q);
    let p = spec_platform_label(platform);
    if tq.len() == 0 {
        r is Empty
    } else if spec_social_platform(p) {
        r is Bridge
    } else if (url_scheme_of(tq) matches Some(s) && (s == "http"@ || s == "https"@)) {
        (r matches SearchPlan::ByUrl { query, platform } && query@ == tq && platform@ == p)
    } else {
        (r matches SearchPlan::Term { search_term, platform } && search_term@ == spec_search_term(
            p,
            tq,
        ) && platform@ == p)
    }
}

/// Plans one search request; see [`spec_search_plan`].
pub fn search_plan(request: &SearchArgs) -> (r: SearchPlan)
    ensures
        spec_search_plan(request.q@, request.platform.deep_view(), r),
{
    let query = trim_str(request.q.as_str());
    if query.is_empty() {
        return SearchPlan::Empty;
    }
    let platform = match &request.platform {
        Some(p) => ascii_lower(trim_str(p.as_str())),
        None => String::from_str("youtube"),
    };
    let pl = platform.as_str();
    if str_eq(pl, "social") || str_eq(pl, "tiktok") || str_eq(pl, "instagram") || str_eq(
        pl,
        "facebook",
    ) {
        return SearchPlan::Bridge;
    }
    if crate::urlkit::looks_like_url(query) {
        return SearchPlan::ByUrl { query: query.to_owned(), platform };
    }
    let mut term = if str_eq(pl, "soundcloud") {
        String::from_str("scsearch5:")
    } else {
        String::from_str("ytsearch5:")
    };
    term.append(query);
    proof {
        assert(term@ =~= spec_search_term(platform@, query@));
    }
    SearchPlan::Term { search_term: term, platform }
}

/// The downloader status: the probed version joined with the stored
/// bookkeeping; self-update is neither allowed nor supported.
pub fn get_ytdlp_status(state: &YtdlpState, version: Option<String>) -> (r: YtdlpStatus)
    ensures
        r.version == version,
        !r.self_update_allowed,
        !r.self_update_supported,
        r.last_known_good_version == state.last_known_good_version,
        r.last_checked_at == state.last_checked_at,
        r.last_update_status == state.last_update_status,
        r.last_update_error == state.last_update_error,
        r.last_smoke_test_ok == state.last_smoke_test_ok,
{
    YtdlpStatus {
        version,
        self_update_allowed: false,
        self_update_supported: false,
        last_known_good_version: crate::job::clone_opt_string(&state.last_known_good_version),
        last_checked_at: crate::job::clone_opt_string(&state.last_checked_at),
        last_update_status: crate::job::clone_opt_string(&state.last_update_status),
        last_update_error: crate::job::clone_opt_string(&state.last_update_error),
        last_smoke_test_ok: state.last_smoke_test_ok,
    }
}

} // verus!
