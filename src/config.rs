//! The settings of a run and their validation, done once before any worker
//! starts.

use crate::parse::{
    duration_fits, duration_parts_of, duration_value, header_of, method_of, method_value,
    parse_duration, parse_header, parse_http_method,
};
use std::time::Duration;
use vstd::prelude::*;

verus! {

/// The command-line settings of a run.
#[derive(Debug, Clone)]
pub struct Args {
    pub url: String,
    pub method: String,
    pub concurrency: usize,
    pub requests: Option<u64>,
    pub duration: Option<String>,
    pub timeout: String,
    pub headers: Vec<String>,
    pub api_key: Option<String>,
    pub json: Option<String>,
    pub json_file: Option<String>,
    pub progress_every: u64,
}

/// The settings a run is started with, before validation.
#[derive(Debug, Clone)]
pub struct RunArgs {
    pub url: String,
    pub method: String,
    pub concurrency: usize,
    pub requests: Option<u64>,
    pub duration: Option<String>,
    pub timeout: String,
    pub headers: Vec<String>,
    pub api_key: Option<String>,
    pub json: Option<String>,
    pub json_file: Option<String>,
    pub progress_every: u64,
}

impl From<Args> for RunArgs {
    fn from(a: Args) -> RunArgs {
        RunArgs {
            url: a.url,
            method: a.method,
            concurrency: a.concurrency,
            requests: a.requests,
            duration: a.duration,
            timeout: a.timeout,
            headers: a.headers,
            api_key: a.api_key,
            json: a.json,
            json_file: a.json_file,
            progress_every: a.progress_every,
        }
    }
}

impl vstd::std_specs::convert::FromSpecImpl<Args> for RunArgs {
    open spec fn obeys_from_spec() -> bool {
        true
    }

    open spec fn from_spec(a: Args) -> RunArgs {
        RunArgs {
            url: a.url,
            method: a.method,
            concurrency: a.concurrency,
            requests: a.requests,
            duration: a.duration,
            timeout: a.timeout,
            headers: a.headers,
            api_key: a.api_key,
            json: a.json,
            json_file: a.json_file,
            progress_every: a.progress_every,
        }
    }
}

/// Why a run's settings were refused.
#[derive(Debug, Clone, Copy, PartialEq, Eq, Structural)]
pub enum ConfigError {
    InvalidUrl,
    InvalidMethod,
    /// Neither a request-count target nor a deadline was given.
    MissingStopCondition,
    InvalidTimeout,
    InvalidDuration,
    /// The header at this position is not `Key: Value`.
    InvalidHeader(usize),
    /// Both inline JSON and a JSON file were given.
    ConflictingJsonSources,
    InvalidJson,
    UnreadableJsonFile,
    InvalidJsonFile,
}

/// Whether `s` is a URL that reqwest accepts.
pub uninterp spec fn url_valid(s: Seq<char>) -> bool;

/// Whether `s` is a JSON text.
pub uninterp spec fn json_text_valid(s: Seq<char>) -> bool;

/// Whether `b` is a JSON text in UTF-8.
pub uninterp spec fn json_bytes_valid(b: Seq<u8>) -> bool;

/// The URL that reqwest parses from `s`.
pub uninterp spec fn url_value(s: Seq<char>) -> reqwest::Url;

/// The JSON value that the text `s` holds.
pub uninterp spec fn json_text_value(s: Seq<char>) -> serde_json::Value;

/// The JSON value that the UTF-8 bytes `b` hold.
pub uninterp spec fn json_bytes_value(b: Seq<u8>) -> serde_json::Value;

#[verifier::external_type_specification]
#[verifier::external_body]
pub struct ExUrl(reqwest::Url);

#[verifier::external_type_specification]
#[verifier::external_body]
pub struct ExJsonValue(serde_json::Value);

/// Relies on `reqwest::Url::parse`: whether it accepts the text depends on
/// the text alone.
#[verifier::external_body]
fn parse_url(s: &str) -> (r: Option<reqwest::Url>)
    ensures
        r is Some <==> url_valid(s@),
        r matches Some(u) ==> u == url_value(s@),
{
    reqwest::Url::parse(s).ok()
}

/// Relies on `serde_json::from_str::<Value>`: whether it accepts the text
/// depends on the text alone.
#[verifier::external_body]
fn parse_json_text(s: &str) -> (r: Option<serde_json::Value>)
    ensures
        r is Some <==> json_text_valid(s@),
        r matches Some(v) ==> v == json_text_value(s@),
{
    serde_json::from_str::<serde_json::Value>(s).ok()
}

/// Relies on `serde_json::from_slice::<Value>`: whether it accepts the bytes
/// depends on the bytes alone.
#[verifier::external_body]
fn parse_json_bytes(b: &[u8]) -> (r: Option<serde_json::Value>)
    ensures
        r is Some <==> json_bytes_valid(b@),
        r matches Some(v) ==> v == json_bytes_value(b@),
{
    serde_json::from_slice::<serde_json::Value>(b).ok()
}

/// Whether a duration text is accepted and can be held.
pub open spec fn duration_ok(s: Seq<char>) -> bool {
    duration_parts_of(s) matches Some((v, u)) && duration_fits(v, u)
}

/// The position of the first header at or after `i` that is not `Key: Value`.
pub open spec fn bad_header_from(hs: Seq<String>, i: int) -> Option<int>
    decreases hs.len() - i,
{
    if i < 0 || i >= hs.len() {
        None
    } else if header_of(hs[i]@) is None {
        Some(i)
    } else {
        bad_header_from(hs, i + 1)
    }
}

/// Header entries as text.
pub open spec fn entries_view(e: Seq<(String, String)>) -> Seq<(Seq<char>, Seq<char>)> {
    e.map_values(|p: (String, String)| (p.0@, p.1@))
}

/// No two entries share a key.
pub open spec fn keys_unique(e: Seq<(Seq<char>, Seq<char>)>) -> bool {
    forall|i: int, j: int| 0 <= i < j < e.len() ==> #[trigger] e[i].0 != #[trigger] e[j].0
}

/// Sets header `k` to `v`: the entry with key `k` takes the new value in
/// place, or a new entry goes at the end.
pub open spec fn put_header(e: Seq<(Seq<char>, Seq<char>)>, k: Seq<char>, v: Seq<char>) -> Seq<
    (Seq<char>, Seq<char>),
> {
    if exists|p: int| 0 <= p < e.len() && #[trigger] e[p].0 == k {
        let p = choose|p: int| 0 <= p < e.len() && #[trigger] e[p].0 == k;
        e.update(p, (k, v))
    } else {
        e.push((k, v))
    }
}

/// The header entries that a list of `Key: Value` texts gives, later ones
/// replacing earlier ones with the same key.
pub open spec fn header_entries(hs: Seq<String>) -> Seq<(Seq<char>, Seq<char>)>
    decreases hs.len(),
{
    if hs.len() == 0 {
        Seq::empty()
    } else {
        let e = header_entries(hs.drop_last());
        match header_of(hs.last()@) {
            Some((k, v)) => put_header(e, k, v),
            None => e,
        }
    }
}

/// Sets header `k` to `v` in a list of entries with unique keys.
pub fn set_header(entries: &mut Vec<(String, String)>, k: String, v: String)
    requires
        keys_unique(entries_view(old(entries)@)),
    ensures
        entries_view(final(entries)@) == put_header(entries_view(old(entries)@), k@, v@),
        keys_unique(entries_view(final(entries)@)),
{
    let ghost e = entries_view(entries@);
    let n = entries.len();
    let mut i: usize = 0;
    while i < n
        invariant
            n == entries@.len(),
            e == entries_view(entries@),
            entries@ == old(entries)@,
            keys_unique(e),
            i <= n,
            forall|j: int| 0 <= j < i ==> e[j].0 != k@,
        decreases n - i,
    {
        if entries[i].0 == k {
            proof {
                assert(e[i as int].0 == k@);
                assert(exists|p: int| 0 <= p < e.len() && #[trigger] e[p].0 == k@);
                let p = choose|p: int| 0 <= p < e.len() && #[trigger] e[p].0 == k@;
                assert(p == i) by {
                    if p < i {
                        assert(e[p].0 != k@);
                    } else if p > i {
                        assert(e[i as int].0 != e[p].0);
                    }
                }
                assert(put_header(e, k@, v@) == e.update(i as int, (k@, v@)));
            }
            entries.set(i, (k, v));
            proof {
                assert(entries_view(entries@) =~= e.update(i as int, (k@, v@)));
            }
            return;
        }
        i = i + 1;
    }
    proof {
        assert(!exists|p: int| 0 <= p < e.len() && #[trigger] e[p].0 == k@);
    }
    entries.push((k, v));
    proof {
        assert(entries_view(entries@) =~= e.push((k@, v@)));
    }
}

/// The refusal, if any, that the JSON body settings meet.
pub open spec fn json_error(args: RunArgs, file_bytes: Option<&[u8]>) -> Option<ConfigError> {
    match (args.json, args.json_file) {
        (Some(_), Some(_)) => Some(ConfigError::ConflictingJsonSources),
        (Some(s), None) => if json_text_valid(s@) {
            None
        } else {
            Some(ConfigError::InvalidJson)
        },
        (None, Some(_)) => match file_bytes {
            Some(b) => if json_bytes_valid(b@) {
                None
            } else {
                Some(ConfigError::InvalidJsonFile)
            },
            None => Some(ConfigError::UnreadableJsonFile),
        },
        (None, None) => None,
    }
}

/// The JSON body that accepted settings give.
pub open spec fn json_payload_of(args: RunArgs, file_bytes: Option<&[u8]>) -> Option<
    serde_json::Value,
> {
    match (args.json, args.json_file) {
        (Some(s), None) => Some(json_text_value(s@)),
        (None, Some(_)) => match file_bytes {
            Some(b) => Some(json_bytes_value(b@)),
            None => None,
        },
        _ => None,
    }
}

/// The JSON body of a run: from inline text, or from the contents of the JSON
/// file (`file_bytes`, `None` when the file could not be read), or none.
pub fn load_json_payload(args: &RunArgs, file_bytes: Option<&[u8]>) -> (r: Result<
    Option<serde_json::Value>,
    ConfigError,
>)
    ensures
        match r {
            Ok(v) => json_error(*args, file_bytes) is None && v == json_payload_of(*args, file_bytes)
                && (v is Some <==> (args.json is Some || args.json_file is Some)),
            Err(e) => json_error(*args, file_bytes) == Some(e),
        },
{
    match (&args.json, &args.json_file) {
        (Some(_), Some(_)) => Err(ConfigError::ConflictingJsonSources),
        (Some(s), None) => match parse_json_text(s.as_str()) {
            Some(v) => Ok(Some(v)),
            None => Err(ConfigError::InvalidJson),
        },
        (None, Some(_)) => match file_bytes {
            Some(b) => match parse_json_bytes(b) {
                Some(v) => Ok(Some(v)),
                None => Err(ConfigError::InvalidJsonFile),
            },
            None => Err(ConfigError::UnreadableJsonFile),
        },
        (None, None) => Ok(None),
    }
}

/// The header entries with the API key, if one is given, as a bearer token.
pub open spec fn with_api_key(e: Seq<(Seq<char>, Seq<char>)>, key: Option<String>) -> Seq<
    (Seq<char>, Seq<char>),
> {
    match key {
        Some(t) => put_header(e, "Authorization"@, "Bearer "@ + t@),
        None => e,
    }
}

/// The first refusal that a run's settings meet, checked in this order: URL,
/// method, a stopping condition, timeout, deadline, headers, JSON body.
pub open spec fn plan_error(args: RunArgs, file_bytes: Option<&[u8]>) -> Option<ConfigError> {
    if !url_valid(args.url@) {
        Some(ConfigError::InvalidUrl)
    } else if method_of(args.method@) is None {
        Some(ConfigError::InvalidMethod)
    } else if args.requests is None && args.duration is None {
        Some(ConfigError::MissingStopCondition)
    } else if !duration_ok(args.timeout@) {
        Some(ConfigError::InvalidTimeout)
    } else if args.duration matches Some(d) && !duration_ok(d@) {
        Some(ConfigError::InvalidDuration)
    } else {
        match bad_header_from(args.headers@, 0) {
            Some(i) => Some(ConfigError::InvalidHeader(i as usize)),
            None => json_error(args, file_bytes),
        }
    }
}

/// A validated run: what the workers need to issue requests.
pub struct RunPlan {
    pub url: reqwest::Url,
    pub method: reqwest::Method,
    /// The number of workers, at least one.
    pub concurrency: usize,
    /// The request-count target, if any.
    pub limit: Option<u64>,
    pub timeout: Duration,
    /// How long the run may hand out slots, if bounded in time.
    pub deadline: Option<Duration>,
    /// Headers with unique keys, in the order first given.
    pub headers: Vec<(String, String)>,
    pub json: Option<serde_json::Value>,
    /// Report progress every this many completions; 0 never.
    pub progress_every: u64,
}

/// Validates a run's settings and turns them into a plan; fails with the
/// first refusal, before any request is issued.
pub fn plan_run(args: &RunArgs, file_bytes: Option<&[u8]>) -> (r: Result<RunPlan, ConfigError>)
    ensures
        match r {
            Ok(p) => {
                &&& plan_error(*args, file_bytes) is None
                &&& p.limit == args.requests
                &&& p.concurrency == if args.concurrency == 0 {
                    1
                } else {
                    args.concurrency
                }
                &&& p.progress_every == args.progress_every
                &&& p.url == url_value(args.url@)
                &&& method_of(args.method@) matches Some(m) && p.method == method_value(m)
                &&& Some(p.timeout) == duration_value(args.timeout@)
                &&& p.deadline == match args.duration {
                    Some(d) => duration_value(d@),
                    None => None,
                }
                &&& entries_view(p.headers@) == with_api_key(
                    header_entries(args.headers@),
                    args.api_key,
                )
                &&& keys_unique(entries_view(p.headers@))
                &&& p.json == json_payload_of(*args, file_bytes)
                &&& (p.json is Some <==> (args.json is Some || args.json_file is Some))
            },
            Err(e) => plan_error(*args, file_bytes) == Some(e),
        },
{
    let url = match parse_url(args.url.as_str()) {
        Some(u) => u,
        None => return Err(ConfigError::InvalidUrl),
    };
    let method = match parse_http_method(args.method.as_str()) {
        Some(m) => m,
        None => return Err(ConfigError::InvalidMethod),
    };
    if args.requests.is_none() && args.duration.is_none() {
        return Err(ConfigError::MissingStopCondition);
    }
    let timeout = match parse_duration(args.timeout.as_str()) {
        Some(t) => t,
        None => return Err(ConfigError::InvalidTimeout),
    };
    let deadline = match &args.duration {
        Some(d) => match parse_duration(d.as_str()) {
            Some(t) => Some(t),
            None => return Err(ConfigError::InvalidDuration),
        },
        None => None,
    };
    let ghost hs = args.headers@;
    let mut headers: Vec<(String, String)> = Vec::new();
    let n = args.headers.len();
    let mut i: usize = 0;
    proof {
        assert(entries_view(headers@) =~= header_entries(hs.subrange(0, 0)));
    }
    while i < n
        invariant
            hs == args.headers@,
            n == hs.len(),
            i <= n,
            entries_view(headers@) == header_entries(hs.subrange(0, i as int)),
            keys_unique(entries_view(headers@)),
            bad_header_from(hs, 0) == bad_header_from(hs, i as int),
            url_valid(args.url@),
            method_of(args.method@) is Some,
            args.requests is Some || args.duration is Some,
            duration_ok(args.timeout@),
            args.duration matches Some(d) ==> duration_ok(d@),
        decreases n - i,
    {
        proof {
            assert(hs.subrange(0, i + 1).drop_last() =~= hs.subrange(0, i as int));
            assert(hs.subrange(0, i + 1).last() == hs[i as int]);
        }
        match parse_header(args.headers[i].as_str()) {
            Some((k, v)) => {
                proof {
                    assert(bad_header_from(hs, i as int) == bad_header_from(hs, i + 1));
                }
                set_header(&mut headers, k, v);
            },
            None => {
                proof {
                    assert(bad_header_from(hs, i as int) == Some(i as int));
                }
                return Err(ConfigError::InvalidHeader(i));
            },
        }
        i = i + 1;
    }
    proof {
        assert(hs.subrange(0, n as int) =~= hs);
    }
    match &args.api_key {
        Some(token) => {
            let mut value = "Bearer ".to_owned();
            value.append(token.as_str());
            set_header(&mut headers, "Authorization".to_owned(), value);
        },
        None => {},
    }
    let json = match load_json_payload(args, file_bytes) {
        Ok(j) => j,
        Err(e) => return Err(e),
    };
    let concurrency: usize = if args.concurrency == 0 {
        1
    } else {
        args.concurrency
    };
    Ok(
        RunPlan {
            url,
            method,
            concurrency,
            limit: args.requests,
            timeout,
            deadline,
            headers,
            json,
            progress_every: args.progress_every,
        },
    )
}

} // verus!
