//! The per-request dispatcher: extracts what a request needs, resolves the
//! site, normalizes the path, and maps the fetch outcome to an HTTP response.
//!
//! Each request is independent and makes at most one fetch attempt; the
//! terminal state is always a single response.

use vstd::prelude::*;
use crate::path::{normalize_path, normalized_key};
use crate::registry::{SiteRegistry, SiteEntry};
use crate::strutil::lower;

verus! {

/// What a hostname resolves to in a registry mapping: the backing bucket of
/// its lowercased form, if configured.
pub open spec fn resolved_bucket(m: Map<Seq<char>, Seq<char>>, host: Seq<char>) -> Option<
    Seq<char>,
> {
    if m.contains_key(lower(host)) {
        Some(m[lower(host)])
    } else {
        None
    }
}

/// Law: hostname resolution is case-insensitive — two spellings of a host
/// that agree after ASCII lowercasing resolve to the same bucket, for every
/// registry mapping.
pub proof fn lemma_resolution_case_insensitive(
    m: Map<Seq<char>, Seq<char>>,
    h1: Seq<char>,
    h2: Seq<char>,
)
    requires
        lower(h1) == lower(h2),
    ensures
        resolved_bucket(m, h1) == resolved_bucket(m, h2),
{
}

/// The routing step's result: either the site to fetch from together with the
/// normalized object key, or no configured site for the host.
pub enum RouteDecision<'a> {
    Fetch { site: &'a SiteEntry, key: String },
    UnknownHost,
}

/// Resolves a request: lowercases the host, looks it up, and normalizes the
/// request path into the object key. Issues no fetch itself; an unknown host
/// yields `UnknownHost` and no site to fetch from.
pub fn route<'a>(reg: &'a SiteRegistry, host: &str, raw_path: &str) -> (r: RouteDecision<'a>)
    requires
        reg.wf(),
    ensures
        match r {
            RouteDecision::Fetch { site, key } => resolved_bucket(reg@, host@) == Some(
                site.bucket_name@,
            ) && site.hostname@ == lower(host@) && key@ == normalized_key(raw_path@),
            RouteDecision::UnknownHost => resolved_bucket(reg@, host@) is None,
        },
{
    match reg.lookup(host) {
        Some(site) => RouteDecision::Fetch { site, key: normalize_path(raw_path) },
        None => RouteDecision::UnknownHost,
    }
}

/// A fetch attempt's failure, as the storage layer reported it.
pub enum FetchError {
    /// The resolved object does not exist in the bucket.
    NotFound,
    /// The backend answered with a failing status and a body.
    Backend(u16, String),
    /// The attempt failed before any backend status came back.
    Transport(String),
}

/// Classifies a failing backend status: the backend's "no such object"
/// status surfaces as `NotFound`, every other status is kept as a backend
/// failure with its body.
pub fn classify_backend_status(code: u16, body: String) -> (r: FetchError)
    ensures
        r == (if code == 404 {
            FetchError::NotFound
        } else {
            FetchError::Backend(code, body)
        }),
{
    if code == 404 {
        FetchError::NotFound
    } else {
        FetchError::Backend(code, body)
    }
}

/// How one request ended before the response is written: the host was not
/// configured, or a fetch was attempted and came back with this outcome.
pub enum RequestOutcome {
    UnknownHost,
    Fetch(Result<(), FetchError>),
}

/// The status the client sees for each way a request can end.
pub open spec fn status_of(o: RequestOutcome) -> u16 {
    match o {
        RequestOutcome::UnknownHost => 404,
        RequestOutcome::Fetch(res) => match res {
            Ok(_) => 200,
            Err(FetchError::NotFound) => 404,
            Err(_) => 500,
        },
    }
}

/// Law: a backend "object not found" surfaces to the client as `404`; every
/// other fetch failure surfaces as `500`; a successful fetch as `200`.
pub proof fn lemma_backend_error_surface(res: Result<(), FetchError>)
    ensures
        res matches Err(FetchError::NotFound) ==> status_of(RequestOutcome::Fetch(res)) == 404,
        (res matches Err(e) && !(e is NotFound)) ==> status_of(RequestOutcome::Fetch(res)) == 500,
        res is Ok ==> status_of(RequestOutcome::Fetch(res)) == 200,
{
}

/// Law: a request to an unconfigured hostname ends in `404`.
pub proof fn lemma_unknown_host_yields_404(o: RequestOutcome)
    requires
        o is UnknownHost,
    ensures
        status_of(o) == 404,
{
}

/// One structured record for the operator: the failing host, the request
/// URI, and the error detail. Never shown to the client.
pub struct LogRecord {
    pub host: String,
    pub uri: String,
    pub detail: String,
}

/// The response the dispatcher decided on: the status for the client, and
/// the log record to emit, present exactly for operator-facing failures.
pub struct Reply {
    pub status: u16,
    pub log: Option<LogRecord>,
}

/// Maps how the request ended to the response: `200` streams the fetched
/// object, `404` hides both unknown hosts and missing objects, and every
/// other failure is a generic `500` whose detail goes only to the log —
/// exactly one record, carrying the host and the URI.
pub fn finish_request(host: &str, uri: &str, outcome: RequestOutcome) -> (r: Reply)
    ensures
        r.status == status_of(outcome),
        r.log is Some <==> status_of(outcome) == 500,
        r.log matches Some(l) ==> l.host@ == host@ && l.uri@ == uri@,
        r.log matches Some(l) ==> (outcome matches RequestOutcome::Fetch(
            Err(FetchError::Backend(c, b)),
        ) ==> l.detail@ == b@),
        r.log matches Some(l) ==> (outcome matches RequestOutcome::Fetch(
            Err(FetchError::Transport(m)),
        ) ==> l.detail@ == m@),
{
    match outcome {
        RequestOutcome::UnknownHost => Reply { status: 404, log: None },
        RequestOutcome::Fetch(res) => match res {
            Ok(_) => Reply { status: 200, log: None },
            Err(FetchError::NotFound) => Reply { status: 404, log: None },
            Err(FetchError::Backend(_, body)) => Reply {
                status: 500,
                log: Some(
                    LogRecord { host: host.to_owned(), uri: uri.to_owned(), detail: body },
                ),
            },
            Err(FetchError::Transport(msg)) => Reply {
                status: 500,
                log: Some(LogRecord { host: host.to_owned(), uri: uri.to_owned(), detail: msg }),
            },
        },
    }
}

} // verus!
