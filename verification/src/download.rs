//! The proxy settings handed to child processes.

use vstd::prelude::*;

use crate::config::{nonblank_spec, ProxyConfig};
use crate::runner::{pair_views, push_pair};

verus! {

/// Environment variables to pass to child processes so their own downloaders
/// (curl / PowerShell / uv) go through the configured proxy: the HTTP proxy
/// under both spellings, the HTTPS proxy likewise, `ALL_PROXY` (uv's general
/// fallback) set to the HTTPS proxy or else the HTTP one, and the no-proxy
/// list under both spellings. Blank settings are left out.
pub open spec fn proxy_envs_spec(p: ProxyConfig) -> Seq<(Seq<char>, Seq<char>)> {
    (match nonblank_spec(p.http@) {
        Some(u) => seq![("HTTP_PROXY"@, u), ("http_proxy"@, u)],
        None => Seq::empty(),
    }) + (match nonblank_spec(p.https@) {
        Some(u) => seq![("HTTPS_PROXY"@, u), ("https_proxy"@, u), ("ALL_PROXY"@, u)],
        None => match nonblank_spec(p.http@) {
            Some(u) => seq![("ALL_PROXY"@, u)],
            None => Seq::empty(),
        },
    }) + (match nonblank_spec(p.no_proxy@) {
        Some(u) => seq![("NO_PROXY"@, u), ("no_proxy"@, u)],
        None => Seq::empty(),
    })
}

pub fn proxy_envs(proxy: &ProxyConfig) -> (envs: Vec<(String, String)>)
    ensures
        pair_views(envs@) == proxy_envs_spec(*proxy),
{
    let mut envs: Vec<(String, String)> = Vec::new();
    let http = proxy.http_opt();
    let https = proxy.https_opt();
    let no_proxy = proxy.no_proxy_opt();
    if let Some(u) = &http {
        push_pair(&mut envs, "HTTP_PROXY", u.as_str());
        push_pair(&mut envs, "http_proxy", u.as_str());
    }
    let ghost a = pair_views(envs@);
    if let Some(u) = &https {
        push_pair(&mut envs, "HTTPS_PROXY", u.as_str());
        push_pair(&mut envs, "https_proxy", u.as_str());
        push_pair(&mut envs, "ALL_PROXY", u.as_str());
    } else if let Some(u) = &http {
        push_pair(&mut envs, "ALL_PROXY", u.as_str());
    }
    let ghost b = pair_views(envs@);
    if let Some(u) = &no_proxy {
        push_pair(&mut envs, "NO_PROXY", u.as_str());
        push_pair(&mut envs, "no_proxy", u.as_str());
    }
    assert(pair_views(envs@) =~= proxy_envs_spec(*proxy));
    envs
}

} // verus!
