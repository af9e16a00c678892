//! The network test: which endpoints to probe and how to read the answers.

use vstd::prelude::*;

use crate::config::{opt_view, Config};
use crate::progress::{LogLevel, LogLine};
use crate::runner::{pair_views, push_pair};
use crate::text::{concat, decimal_spec, trim_spec, u64_to_string};

verus! {

broadcast use vstd::string::group_string_axioms;

/// The outcome of probing one endpoint.
#[derive(Debug, Clone, PartialEq, Eq)]
pub struct EndpointResult {
    pub name: String,
    pub url: String,
    pub ok: bool,
    pub status: Option<u16>,
    pub latency_ms: Option<u64>,
    pub error: Option<String>,
}

/// What the request to an endpoint gave.
#[derive(Debug, Clone, PartialEq, Eq)]
pub enum ProbeOutcome {
    /// An HTTP answer with its status code, after `latency_ms`.
    Response { status: u16, latency_ms: u64 },
    /// No answer; the client's message.
    Failed(String),
}

/// Endpoints that must be reachable for a successful install.
pub open spec fn endpoints_spec() -> Seq<(Seq<char>, Seq<char>)> {
    seq![
        ("Astral (uv)"@, "https://astral.sh"@),
        ("VSCode updates"@, "https://update.code.visualstudio.com/"@),
        ("GitHub (Python builds)"@, "https://github.com"@),
        ("PyPI"@, "https://pypi.org/simple/"@),
    ]
}

pub fn endpoints() -> (v: Vec<(String, String)>)
    ensures
        pair_views(v@) == endpoints_spec(),
{
    let mut v: Vec<(String, String)> = Vec::new();
    push_pair(&mut v, "Astral (uv)", "https://astral.sh");
    push_pair(&mut v, "VSCode updates", "https://update.code.visualstudio.com/");
    push_pair(&mut v, "GitHub (Python builds)", "https://github.com");
    push_pair(&mut v, "PyPI", "https://pypi.org/simple/");
    assert(pair_views(v@) =~= endpoints_spec());
    v
}

/// The line that starts the test: direct, or through the proxy.
pub open spec fn intro_spec(cfg: Config) -> Seq<char> {
    if trim_spec(cfg.proxy.http@).len() == 0 && trim_spec(cfg.proxy.https@).len() == 0 {
        "Testing network (direct connection, no proxy)..."@
    } else {
        "Testing network through the configured proxy..."@
    }
}

pub fn intro_line(cfg: &Config) -> (l: LogLine)
    ensures
        l.level == LogLevel::Info,
        l.message@ == intro_spec(*cfg),
{
    let message = if cfg.proxy.is_empty() {
        "Testing network (direct connection, no proxy)...".to_string()
    } else {
        "Testing network through the configured proxy...".to_string()
    };
    LogLine { level: LogLevel::Info, message }
}

/// An HTTP status proves connectivity unless it is a server error or
/// informational: success, redirection and client errors (4xx) all count.
pub open spec fn reachable_status(status: u16) -> bool {
    200 <= status < 500
}

/// The result for the endpoint `name` at `url` with the outcome `o`.
pub open spec fn endpoint_result_holds(name: Seq<char>, url: Seq<char>, o: ProbeOutcome, r: EndpointResult) -> bool {
    &&& r.name@ == name
    &&& r.url@ == url
    &&& match o {
        ProbeOutcome::Response { status, latency_ms } => {
            &&& r.ok == reachable_status(status)
            &&& r.status == Some(status)
            &&& r.latency_ms == Some(latency_ms)
            &&& r.error is None
        },
        ProbeOutcome::Failed(m) => {
            &&& !r.ok
            &&& r.status is None
            &&& r.latency_ms is None
            &&& opt_view(r.error) == Some(m@)
        },
    }
}

fn endpoint_result(name: &str, url: &str, o: &ProbeOutcome) -> (r: EndpointResult)
    ensures
        endpoint_result_holds(name@, url@, *o, r),
{
    match o {
        ProbeOutcome::Response { status, latency_ms } => EndpointResult {
            name: name.to_string(),
            url: url.to_string(),
            ok: 200 <= *status && *status < 500,
            status: Some(*status),
            latency_ms: Some(*latency_ms),
            error: None,
        },
        ProbeOutcome::Failed(m) => EndpointResult {
            name: name.to_string(),
            url: url.to_string(),
            ok: false,
            status: None,
            latency_ms: None,
            error: Some(m.clone()),
        },
    }
}

/// Probe results for every endpoint, from the outcomes of the requests
/// (`outcomes[i]` for the `i`-th endpoint, made through the configured
/// proxy). An unreachable host never fails the test: it is recorded.
pub fn run(outcomes: &Vec<ProbeOutcome>) -> (r: Vec<EndpointResult>)
    requires
        outcomes.len() == endpoints_spec().len(),
    ensures
        r.len() == endpoints_spec().len(),
        forall|i: int|
            0 <= i < r.len() ==> endpoint_result_holds(
                endpoints_spec()[i].0,
                endpoints_spec()[i].1,
                outcomes@[i],
                #[trigger] r@[i],
            ),
{
    let eps = endpoints();
    let mut r: Vec<EndpointResult> = Vec::new();
    let mut i: usize = 0;
    while i < eps.len()
        invariant
            i <= eps.len(),
            pair_views(eps@) == endpoints_spec(),
            outcomes.len() == eps.len(),
            r.len() == i,
            forall|k: int|
                0 <= k < i ==> endpoint_result_holds(
                    endpoints_spec()[k].0,
                    endpoints_spec()[k].1,
                    outcomes@[k],
                    #[trigger] r@[k],
                ),
        decreases eps.len() - i,
    {
        assert(eps[i as int].0@ == endpoints_spec()[i as int].0);
        assert(eps[i as int].1@ == endpoints_spec()[i as int].1);
        let e = endpoint_result(eps[i].0.as_str(), eps[i].1.as_str(), &outcomes[i]);
        r.push(e);
        i = i + 1;
    }
    r
}

/// The line that reports a result: reachable with its latency, the HTTP
/// status of an unreachable answer, or the client's error.
pub open spec fn report_spec(r: EndpointResult) -> (LogLevel, Seq<char>) {
    if r.ok {
        let ms = match r.latency_ms {
            Some(m) => m,
            None => 0,
        };
        (LogLevel::Success, r.name@ + ": reachable ("@ + decimal_spec(ms as nat) + " ms)"@)
    } else {
        match r.status {
            Some(s) => (LogLevel::Warn, r.name@ + ": HTTP "@ + decimal_spec(s as nat)),
            None => (
                LogLevel::Error,
                r.name@ + ": "@ + match opt_view(r.error) {
                    Some(e) => e,
                    None => Seq::empty(),
                },
            ),
        }
    }
}

pub fn report_line(r: &EndpointResult) -> (l: LogLine)
    ensures
        (l.level, l.message@) == report_spec(*r),
{
    if r.ok {
        let ms: u64 = match r.latency_ms {
            Some(m) => m,
            None => 0,
        };
        let a = concat(r.name.as_str(), ": reachable (");
        let b = concat(a.as_str(), u64_to_string(ms).as_str());
        LogLine { level: LogLevel::Success, message: concat(b.as_str(), " ms)") }
    } else {
        match r.status {
            Some(s) => {
                let a = concat(r.name.as_str(), ": HTTP ");
                LogLine {
                    level: LogLevel::Warn,
                    message: concat(a.as_str(), u64_to_string(s as u64).as_str()),
                }
            },
            None => {
                let e: String = match &r.error {
                    Some(e) => e.clone(),
                    None => String::new(),
                };
                let a = concat(r.name.as_str(), ": ");
                LogLine { level: LogLevel::Error, message: concat(a.as_str(), e.as_str()) }
            },
        }
    }
}

} // verus!
