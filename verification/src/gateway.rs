//! Embedded reverse-proxy gateway planning.
//!
//! The gateway serves front-end assets, applies an SPA fallback, and
//! forwards a fixed set of path prefixes to the backend.  This module
//! holds the verified routing table, the backend authority parsing, the
//! per-request proxy rewrite (target URL, Host header, hop-by-hop header
//! stripping), and the idempotent shutdown signal.  Listening, file
//! serving and request forwarding are done by the unverified driver,
//! which consults these decisions for every request.

use vstd::prelude::*;

use crate::text::{
    eq_str, spec_dec, spec_starts_with, spec_trim_end, starts_with_str, str_concat, trim_end_char,
    u64_to_dec,
};
use vstd::string::StrSliceExecFns;

verus! {

/// Configuration for the embedded web server.
#[derive(Debug, Clone)]
pub struct WebServerConfig {
    /// Host to listen on.
    pub listen_host: String,
    /// Port to listen on.
    pub listen_port: u16,
    /// Path to the front-end asset directory.
    pub dist_dir: String,
    /// Base URL of the backend for proxying.
    pub backend_base: String,
}

impl Default for WebServerConfig {
    fn default() -> (r: Self)
        ensures
            r.listen_host@ == "0.0.0.0"@,
            r.listen_port == 8080,
            r.dist_dir@ == "frontend/dist"@,
            r.backend_base@ == "http://127.0.0.1:12345"@,
    {
        WebServerConfig {
            listen_host: "0.0.0.0".to_owned(),
            listen_port: 8080,
            dist_dir: "frontend/dist".to_owned(),
            backend_base: "http://127.0.0.1:12345".to_owned(),
        }
    }
}

/// Errors that fail the gateway start.
#[derive(Debug, Clone)]
pub enum GatewayError {
    /// The static asset root does not exist; carries the path looked at.
    DistDirMissing(String),
    /// The backend base URL has no recognized scheme; carries the value.
    InvalidBackendBase(String),
}

/// A request path matches a route prefix when it equals the prefix or
/// continues it at a path-segment boundary.
pub open spec fn spec_prefix_route(p: Seq<char>, prefix: Seq<char>) -> bool {
    p == prefix || spec_starts_with(p, prefix + seq!['/'])
}

/// The fixed set of path prefixes that are reverse-proxied to the backend.
pub open spec fn spec_is_proxy_path(p: Seq<char>) -> bool {
    ||| spec_prefix_route(p, "/comic"@)
    ||| spec_prefix_route(p, "/root"@)
    ||| spec_prefix_route(p, "/kemono"@)
    ||| spec_prefix_route(p, "/static"@)
    ||| spec_prefix_route(p, "/static_kemono"@)
    ||| spec_prefix_route(p, "/api"@)
}

/// Where a request path is routed.  Matching is ordered and
/// first-match-wins: proxy prefixes are checked before the static and
/// fallback routes, so an API path can never be answered with the entry
/// document.
#[derive(Debug, Clone, Copy, PartialEq, Eq, Structural)]
pub enum RouteDecision {
    /// Reverse-proxy to the backend.
    Proxy,
    /// Serve from the static asset directory.
    Assets,
    /// Serve a root file when one exists, otherwise the SPA entry document.
    Fallback,
}

fn matches_prefix_route(path: &str, prefix: &str) -> (r: bool)
    ensures
        r == spec_prefix_route(path@, prefix@),
{
    if eq_str(path, prefix) {
        return true;
    }
    let pref_slash = str_concat(prefix, "/");
    proof {
        reveal_strlit("/");
        assert("/"@ =~= seq!['/']);
    }
    starts_with_str(path, pref_slash.as_str())
}

/// Route a request path.
pub fn route_for_path(path: &str) -> (r: RouteDecision)
    ensures
        (r == RouteDecision::Proxy) == spec_is_proxy_path(path@),
        (r == RouteDecision::Assets) == (!spec_is_proxy_path(path@) && spec_prefix_route(
            path@,
            "/assets"@,
        )),
        (r == RouteDecision::Fallback) == (!spec_is_proxy_path(path@) && !spec_prefix_route(
            path@,
            "/assets"@,
        )),
{
    if matches_prefix_route(path, "/comic") || matches_prefix_route(path, "/root")
        || matches_prefix_route(path, "/kemono") || matches_prefix_route(path, "/static")
        || matches_prefix_route(path, "/static_kemono") || matches_prefix_route(path, "/api") {
        RouteDecision::Proxy
    } else if matches_prefix_route(path, "/assets") {
        RouteDecision::Assets
    } else {
        RouteDecision::Fallback
    }
}

/// What an asset request yields: the file when it exists, otherwise a
/// plain not-found answer — never the SPA entry document.
#[derive(Debug, Clone, Copy, PartialEq, Eq, Structural)]
pub enum AssetOutcome {
    File,
    NotFound,
}

/// Decide an asset request from whether the asset file exists.
pub fn asset_response(file_exists: bool) -> (r: AssetOutcome)
    ensures
        (r == AssetOutcome::File) == file_exists,
        (r == AssetOutcome::NotFound) == !file_exists,
{
    if file_exists {
        AssetOutcome::File
    } else {
        AssetOutcome::NotFound
    }
}

/// What a fallback request yields: the root file when one exists at the
/// path, otherwise the SPA entry document, so client-side routes load the
/// application with a success status.
#[derive(Debug, Clone, Copy, PartialEq, Eq, Structural)]
pub enum FallbackOutcome {
    RootFile,
    SpaIndex,
}

/// Decide a fallback request from whether a root file exists at the path.
pub fn fallback_response(file_exists: bool) -> (r: FallbackOutcome)
    ensures
        (r == FallbackOutcome::RootFile) == file_exists,
        (r == FallbackOutcome::SpaIndex) == !file_exists,
{
    if file_exists {
        FallbackOutcome::RootFile
    } else {
        FallbackOutcome::SpaIndex
    }
}

/// The remainder of `s` after its scheme prefix, for the two schemes the
/// gateway accepts.
pub open spec fn spec_strip_scheme(s: Seq<char>) -> Option<Seq<char>> {
    if spec_starts_with(s, "http://"@) {
        Some(s.subrange("http://"@.len() as int, s.len() as int))
    } else if spec_starts_with(s, "https://"@) {
        Some(s.subrange("https://"@.len() as int, s.len() as int))
    } else {
        None
    }
}

/// The part of `s` before its first `/`; the whole of `s` when it has
/// none.
pub open spec fn spec_before_first_slash(s: Seq<char>) -> Seq<char>
    decreases s.len(),
{
    if s.len() == 0 {
        s
    } else if s[0] == '/' {
        Seq::empty()
    } else {
        seq![s[0]] + spec_before_first_slash(s.drop_first())
    }
}

proof fn lemma_before_first_slash_no_slash(s: Seq<char>)
    requires
        forall|j: int| 0 <= j < s.len() ==> s[j] != '/',
    ensures
        spec_before_first_slash(s) == s,
    decreases s.len(),
{
    if s.len() > 0 {
        lemma_before_first_slash_no_slash(s.drop_first());
        assert(seq![s[0]] + s.drop_first() =~= s);
    }
}

proof fn lemma_before_first_slash_at(s: Seq<char>, i: int)
    requires
        0 <= i < s.len(),
        s[i] == '/',
        forall|j: int| 0 <= j < i ==> s[j] != '/',
    ensures
        spec_before_first_slash(s) == s.subrange(0, i),
    decreases s.len(),
{
    if i == 0 {
        assert(s.subrange(0, 0) =~= Seq::<char>::empty());
    } else {
        lemma_before_first_slash_at(s.drop_first(), i - 1);
        assert(seq![s[0]] + s.drop_first().subrange(0, i - 1) =~= s.subrange(0, i));
    }
}

/// The authority (host and port) of a backend base URL: what follows the
/// `http://` or `https://` scheme, up to the first slash.  A base with
/// neither scheme has no authority and is rejected at gateway start.
pub fn backend_authority(base: &str) -> (r: Option<String>)
    ensures
        (r is Some) == (spec_strip_scheme(base@) is Some),
        r matches Some(a) ==> a@ == spec_before_first_slash(spec_strip_scheme(base@)->0),
{
    proof {
        reveal_strlit("http://");
        reveal_strlit("https://");
    }
    let blen = base.unicode_len();
    let rest: &str = if starts_with_str(base, "http://") {
        base.substring_char(7, blen)
    } else if starts_with_str(base, "https://") {
        base.substring_char(8, blen)
    } else {
        return None;
    };
    let ghost rest_view = spec_strip_scheme(base@)->0;
    proof {
        assert(rest@ == rest_view);
    }
    let authority: &str = match crate::text::index_of_char(rest, '/') {
        Some(i) => {
            proof {
                lemma_before_first_slash_at(rest@, i as int);
            }
            rest.substring_char(0, i)
        },
        None => {
            proof {
                assert(forall|j: int| 0 <= j < rest@.len() ==> rest@[j] != '/') by {
                    assert(!rest@.contains('/'));
                }
                lemma_before_first_slash_no_slash(rest@);
            }
            rest
        },
    };
    Some(authority.to_owned())
}

/// The backend base exactly as requests are prefixed with it: the
/// configured value with trailing slashes removed.
pub fn normalize_backend_base(base: &str) -> (r: String)
    ensures
        r@ == spec_trim_end(base@, '/'),
{
    trim_end_char(base, '/')
}

/// The rewrite applied to one proxied request.
#[derive(Debug)]
pub struct ProxyRequest {
    /// The upstream URL the request is forwarded to.
    pub target_url: String,
    /// The value the Host header is rewritten to.
    pub host_header: String,
}

/// Build the upstream rewrite for a proxied request: the target is the
/// normalized backend base followed by the original path and query, and
/// the Host header carries the backend's authority.
pub fn build_proxy_request(backend_base: &str, authority: &str, path_and_query: &str)
    -> (r: ProxyRequest)
    ensures
        r.target_url@ == backend_base@ + path_and_query@,
        r.host_header@ == authority@,
{
    ProxyRequest {
        target_url: str_concat(backend_base, path_and_query),
        host_header: authority.to_owned(),
    }
}

/// Headers that survive forwarding: everything except the hop-by-hop
/// `connection` header (header names are compared lowercased, as the
/// driver's HTTP library presents them).
pub open spec fn spec_kept_headers(h: Seq<(String, String)>) -> Seq<(String, String)>
    decreases h.len(),
{
    if h.len() == 0 {
        h
    } else {
        let rest = spec_kept_headers(h.drop_first());
        if h[0].0@ == "connection"@ {
            rest
        } else {
            seq![h[0]] + rest
        }
    }
}

proof fn lemma_kept_headers_push(h: Seq<(String, String)>, x: (String, String))
    ensures
        spec_kept_headers(h.push(x)) == if x.0@ == "connection"@ {
            spec_kept_headers(h)
        } else {
            spec_kept_headers(h).push(x)
        },
    decreases h.len(),
{
    if h.len() == 0 {
        assert(h.push(x).drop_first() =~= h);
        if x.0@ != "connection"@ {
            assert(seq![x] + spec_kept_headers(h) =~= spec_kept_headers(h).push(x));
        }
    } else {
        assert(h.push(x).drop_first() =~= h.drop_first().push(x));
        lemma_kept_headers_push(h.drop_first(), x);
        assert(h.push(x)[0] == h[0]);
        if h[0].0@ != "connection"@ {
            if x.0@ != "connection"@ {
                assert(seq![h[0]] + spec_kept_headers(h.drop_first()).push(x) =~= (seq![h[0]]
                    + spec_kept_headers(h.drop_first())).push(x));
            }
        }
    }
}

/// Drop the hop-by-hop `connection` header, keeping every other header in
/// order.
pub fn strip_hop_headers(headers: Vec<(String, String)>) -> (r: Vec<(String, String)>)
    ensures
        r@ == spec_kept_headers(headers@),
{
    let mut out: Vec<(String, String)> = Vec::new();
    let mut i: usize = 0;
    proof {
        assert(headers@.subrange(0, 0) =~= Seq::<(String, String)>::empty());
    }
    while i < headers.len()
        invariant
            0 <= i <= headers@.len(),
            out@ == spec_kept_headers(headers@.subrange(0, i as int)),
        decreases headers@.len() - i,
    {
        let keep = !eq_str(headers[i].0.as_str(), "connection");
        proof {
            assert(headers@.subrange(0, i + 1) =~= headers@.subrange(0, i as int).push(
                headers@[i as int],
            ));
            lemma_kept_headers_push(headers@.subrange(0, i as int), headers@[i as int]);
        }
        if keep {
            let name = headers[i].0.clone();
            let value = headers[i].1.clone();
            proof {
                assert((name, value) == headers@[i as int]);
            }
            out.push((name, value));
        }
        i += 1;
    }
    proof {
        assert(headers@.subrange(0, headers@.len() as int) =~= headers@);
    }
    out
}

/// Embedded web server handle: the externally reachable URL and the
/// one-shot shutdown signal.
pub struct WebServer {
    pub url: String,
    pub shutdown_sent: bool,
}

impl WebServer {
    /// The handle for a server listening on `listen_port`.  Browsers
    /// cannot open the all-interfaces address, so the advertised URL uses
    /// `localhost`.
    pub fn started(listen_port: u16) -> (r: Self)
        ensures
            r.url@ == "http://localhost:"@ + spec_dec(listen_port as nat) + seq!['/'],
            !r.shutdown_sent,
    {
        let port = u64_to_dec(listen_port as u64);
        let base = str_concat("http://localhost:", port.as_str());
        let url = str_concat(base.as_str(), "/");
        proof {
            reveal_strlit("/");
            assert("/"@ =~= seq!['/']);
            assert(url@ =~= "http://localhost:"@ + spec_dec(listen_port as nat) + seq!['/']);
        }
        WebServer { url, shutdown_sent: false }
    }

    /// The URL where the server is listening.
    pub fn url(&self) -> (r: &str)
        ensures
            r@ == self.url@,
    {
        self.url.as_str()
    }

    /// Decide a stop request: returns true when the shutdown signal must
    /// be sent now.  Stopping twice is a no-op the second time.
    pub fn stop(&mut self) -> (r: bool)
        ensures
            r == !old(self).shutdown_sent,
            final(self).shutdown_sent,
            final(self).url == old(self).url,
    {
        let r = !self.shutdown_sent;
        self.shutdown_sent = true;
        r
    }
}

/// Resolve the asset directory: an environment override wins over the
/// configured directory.
pub fn resolve_dist_dir(cfg: &WebServerConfig, override_dir: Option<String>) -> (r: String)
    ensures
        match override_dir {
            Some(d) => r@ == d@,
            None => r@ == cfg.dist_dir@,
        },
{
    match override_dir {
        Some(d) => d,
        None => cfg.dist_dir.clone(),
    }
}

/// Everything the driver needs to run the gateway.
#[derive(Debug)]
pub struct GatewayPlan {
    /// The validated asset root.
    pub dist_dir: String,
    /// The asset subdirectory served under the assets route.
    pub assets_dir: String,
    /// The SPA entry document.
    pub index_file: String,
    /// The normalized backend base every proxied path is appended to.
    pub backend_base: String,
    /// The authority the Host header is rewritten to.
    pub backend_authority: String,
    /// The advertised URL.
    pub url: String,
}

/// Validate a gateway configuration and lay out the serving plan.
///
/// Fails exactly when the resolved asset root does not exist or the
/// backend base has no recognized scheme.
pub fn gateway_plan(cfg: &WebServerConfig, dist_dir: String, dist_exists: bool)
    -> (r: Result<GatewayPlan, GatewayError>)
    ensures
        (r is Ok) == (dist_exists && spec_strip_scheme(spec_trim_end(cfg.backend_base@, '/'))
            is Some),
        !dist_exists ==> (r matches Err(GatewayError::DistDirMissing(d)) && d@ == dist_dir@),
        dist_exists && spec_strip_scheme(spec_trim_end(cfg.backend_base@, '/')) is None ==> (
        r matches Err(GatewayError::InvalidBackendBase(b)) && b@ == spec_trim_end(
            cfg.backend_base@,
            '/',
        )),
        r matches Ok(p) ==> {
            &&& p.dist_dir@ == dist_dir@
            &&& p.assets_dir@ == crate::config::spec_join(dist_dir@, "assets"@)
            &&& p.index_file@ == crate::config::spec_join(dist_dir@, "index.html"@)
            &&& p.backend_base@ == spec_trim_end(cfg.backend_base@, '/')
            &&& p.backend_authority@ == spec_before_first_slash(
                spec_strip_scheme(spec_trim_end(cfg.backend_base@, '/'))->0,
            )
            &&& p.url@ == "http://localhost:"@ + spec_dec(cfg.listen_port as nat) + seq!['/']
        },
{
    if !dist_exists {
        return Err(GatewayError::DistDirMissing(dist_dir));
    }
    let backend_base = normalize_backend_base(cfg.backend_base.as_str());
    let authority = match backend_authority(backend_base.as_str()) {
        Some(a) => a,
        None => {
            return Err(GatewayError::InvalidBackendBase(backend_base));
        },
    };
    let assets_dir = crate::config::path_join(dist_dir.as_str(), "assets");
    let index_file = crate::config::path_join(dist_dir.as_str(), "index.html");
    let port = u64_to_dec(cfg.listen_port as u64);
    let base = str_concat("http://localhost:", port.as_str());
    let url = str_concat(base.as_str(), "/");
    proof {
        reveal_strlit("/");
        assert("/"@ =~= seq!['/']);
        assert(url@ =~= "http://localhost:"@ + spec_dec(cfg.listen_port as nat) + seq!['/']);
    }
    Ok(GatewayPlan { dist_dir, assets_dir, index_file, backend_base, backend_authority: authority, url })
}

/// The URL to open for the user: the embedded web server when it is
/// running, the backend directly otherwise, and the default gateway
/// address as a last resort.
pub fn resolve_open_url(ws: Option<&WebServer>, pm: Option<&crate::supervisor::PythonManager>)
    -> (r: String)
    ensures
        ws matches Some(w) ==> r@ == w.url@,
        ws is None ==> (pm matches Some(m) ==> r@ == "http://127.0.0.1:"@ + spec_dec(
            m.cfg.port as nat,
        ) + seq!['/']),
        ws is None && pm is None ==> r@ == "http://localhost:8080/"@,
{
    match ws {
        Some(w) => w.url.clone(),
        None => match pm {
            Some(m) => m.backend_url(),
            None => "http://localhost:8080/".to_owned(),
        },
    }
}

} // verus!
