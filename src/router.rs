//! Request dispatch: which route a request takes, and what the server does
//! for it.
use vstd::prelude::*;
use vstd::string::*;
use crate::config::{Config, ReverseProxyEntry, StaticRouteEntry};
use crate::rate_limit::{check_rate_limit, entry_of, lists_counters, metrics, metrics_text, rate_step, RateLimiter};
use crate::security::{add_security_headers, headers_view, push_header, security_header_list, with_headers_set, Body, Header, Response};
use crate::text::{starts_with, str_eq, str_starts_with};
use crate::paths::{default_file, default_static_file, join_path_and_query, path_and_query, proxy_target_uri, proxy_uri, static_file_path, static_path};

verus! {

/// What the server reads of an incoming request to route it.
#[derive(Clone, Debug, PartialEq, Eq)]
pub struct RequestHead {
    pub method: String,
    pub path: String,
    pub query: Option<String>,
}

/// The route a request takes.
#[derive(Clone, Debug, PartialEq, Eq)]
pub enum RouteDecision {
    Preflight,
    Health,
    Metrics,
    StaticFile(String),
    ReverseProxy(String),
    DefaultStatic,
    Fallback,
}

/// `i` is the first static route whose path is `path`.
pub open spec fn first_static(routes: Seq<StaticRouteEntry>, path: Seq<char>, i: int) -> bool {
    &&& 0 <= i < routes.len()
    &&& routes[i].path@ == path
    &&& forall|j: int| 0 <= j < i ==> routes[j].path@ != path
}

/// No static route's path is `path`.
pub open spec fn no_static(routes: Seq<StaticRouteEntry>, path: Seq<char>) -> bool {
    forall|j: int| 0 <= j < routes.len() ==> routes[j].path@ != path
}

/// `i` is the first reverse-proxy route whose prefix `path` starts with.
pub open spec fn first_proxy(routes: Seq<ReverseProxyEntry>, path: Seq<char>, i: int) -> bool {
    &&& 0 <= i < routes.len()
    &&& starts_with(path, routes[i].path@)
    &&& forall|j: int| 0 <= j < i ==> !starts_with(path, routes[j].path@)
}

/// `path` starts with no reverse-proxy route's prefix.
pub open spec fn no_proxy(routes: Seq<ReverseProxyEntry>, path: Seq<char>) -> bool {
    forall|j: int| 0 <= j < routes.len() ==> !starts_with(path, routes[j].path@)
}

/// `d` is the route of a request with `method` and `path` under `cfg`: the
/// first of these rules that applies decides.
pub open spec fn resolves_to(method: Seq<char>, path: Seq<char>, cfg: Config, d: RouteDecision) -> bool {
    if method == "OPTIONS"@ {
        d is Preflight
    } else if path == "/health"@ {
        d is Health
    } else if path == "/metrics"@ {
        d is Metrics
    } else if !no_static(cfg.static_routes@, path) {
        exists|i: int|
            #[trigger] first_static(cfg.static_routes@, path, i) && d is StaticFile && d->StaticFile_0@
                == cfg.static_routes@[i].file@
    } else if !no_proxy(cfg.reverse_proxy_routes@, path) {
        exists|i: int|
            #[trigger] first_proxy(cfg.reverse_proxy_routes@, path, i) && d is ReverseProxy
                && d->ReverseProxy_0@ == cfg.reverse_proxy_routes@[i].target@
    } else if cfg.proxy_enabled && starts_with(path, cfg.proxy_route@) {
        d is ReverseProxy && d->ReverseProxy_0@ == cfg.proxy_target@
    } else if method == "GET"@ {
        d is DefaultStatic
    } else {
        d is Fallback
    }
}

/// Picks the route of `req` under `config`.
pub fn resolve(req: &RequestHead, config: &Config) -> (r: RouteDecision)
    ensures
        resolves_to(req.method@, req.path@, *config, r),
{
    let path = req.path.as_str();
    if str_eq(req.method.as_str(), "OPTIONS") {
        return RouteDecision::Preflight;
    }
    if str_eq(path, "/health") {
        return RouteDecision::Health;
    }
    if str_eq(path, "/metrics") {
        return RouteDecision::Metrics;
    }
    let mut i: usize = 0;
    while i < config.static_routes.len()
        invariant
            req.method@ != "OPTIONS"@,
            req.path@ != "/health"@,
            req.path@ != "/metrics"@,
            path@ == req.path@,
            i <= config.static_routes@.len(),
            forall|j: int| 0 <= j < i ==> config.static_routes@[j].path@ != path@,
        decreases config.static_routes@.len() - i,
    {
        if str_eq(path, config.static_routes[i].path.as_str()) {
            let r = RouteDecision::StaticFile(config.static_routes[i].file.clone());
            assert(first_static(config.static_routes@, path@, i as int));
            assert(!no_static(config.static_routes@, path@));
            assert(r->StaticFile_0@ == config.static_routes@[i as int].file@);
            return r;
        }
        i = i + 1;
    }
    let mut k: usize = 0;
    while k < config.reverse_proxy_routes.len()
        invariant
            req.method@ != "OPTIONS"@,
            req.path@ != "/health"@,
            req.path@ != "/metrics"@,
            path@ == req.path@,
            no_static(config.static_routes@, path@),
            k <= config.reverse_proxy_routes@.len(),
            forall|j: int|
                0 <= j < k ==> !starts_with(path@, config.reverse_proxy_routes@[j].path@),
        decreases config.reverse_proxy_routes@.len() - k,
    {
        if str_starts_with(path, config.reverse_proxy_routes[k].path.as_str()) {
            let r = RouteDecision::ReverseProxy(config.reverse_proxy_routes[k].target.clone());
            assert(first_proxy(config.reverse_proxy_routes@, path@, k as int));
            assert(!no_proxy(config.reverse_proxy_routes@, path@));
            assert(r->ReverseProxy_0@ == config.reverse_proxy_routes@[k as int].target@);
            return r;
        }
        k = k + 1;
    }
    if config.proxy_enabled && str_starts_with(path, config.proxy_route.as_str()) {
        return RouteDecision::ReverseProxy(config.proxy_target.clone());
    }
    if str_eq(req.method.as_str(), "GET") {
        RouteDecision::DefaultStatic
    } else {
        RouteDecision::Fallback
    }
}

/// The content type guessed from a path's extension.
pub uninterp spec fn mime_of(path: Seq<char>) -> Seq<char>;

/// Relies on `mime_guess::from_path(..).first_or_octet_stream()`: the content
/// type depends on the path's text alone.
#[verifier::external_body]
fn guess_mime(path: &str) -> (r: String)
    ensures
        r@ == mime_of(path@),
{
    mime_guess::from_path(path).first_or_octet_stream().as_ref().to_string()
}

/// The headers of a CORS preflight reply.
pub open spec fn preflight_headers() -> Seq<(Seq<char>, Seq<char>)> {
    seq![
        ("Access-Control-Allow-Origin"@, "*"@),
        ("Access-Control-Allow-Methods"@, "GET, POST, OPTIONS"@),
        ("Access-Control-Allow-Headers"@, "Content-Type, Authorization"@),
    ]
}

/// The headers of a plain-text reply.
pub open spec fn plain_text_headers() -> Seq<(Seq<char>, Seq<char>)> {
    seq![("Content-Type"@, "text/plain"@)]
}

/// `r` is a 200 reply whose body is the text `t`.
pub open spec fn is_text(r: Response, status: u16, t: Seq<char>) -> bool {
    r.status == status && r.body is Text && r.body->Text_0@ == t
}

/// `r` is the CORS preflight reply: 204, the three CORS headers, no body.
pub open spec fn is_preflight(r: Response) -> bool {
    r.status == 204 && headers_view(r.headers@) == preflight_headers() && r.body is Empty
}

/// `r` is the health reply: 200, plain text `OK`.
pub open spec fn is_health(r: Response) -> bool {
    is_text(r, 200, "OK"@) && headers_view(r.headers@) == plain_text_headers()
}

/// `r` is a metrics reply for the counters `m`: 200, plain text listing them.
pub open spec fn is_metrics(r: Response, m: Map<Seq<char>, (u32, u64)>) -> bool {
    &&& r.status == 200
    &&& headers_view(r.headers@) == plain_text_headers()
    &&& r.body is Text
    &&& exists|e: Seq<(String, u32)>|
        lists_counters(e, m) && #[trigger] metrics_text(e) == r.body->Text_0@
}

/// `r` is the fallback reply: 200, `Hello from Haxxserver`, security headers.
pub open spec fn is_fallback(r: Response, level: u8, is_https: bool) -> bool {
    is_text(r, 200, "Hello from Haxxserver"@) && headers_view(r.headers@) == security_header_list(
        level,
        is_https,
    )
}

/// `r` is the rate-limit rejection: 429, `Too Many Requests`, no header.
pub open spec fn is_too_many(r: Response) -> bool {
    is_text(r, 429, "Too Many Requests"@) && r.headers@.len() == 0
}

/// `r` serves the file at `path` whose read gave `contents` (nothing when it
/// failed): its bytes with the guessed content type, or 404 `Not Found`;
/// security headers either way.
pub open spec fn is_static_reply(
    r: Response,
    path: Seq<char>,
    contents: Option<Vec<u8>>,
    level: u8,
    is_https: bool,
) -> bool {
    match contents {
        Some(b) => {
            &&& r.status == 200
            &&& headers_view(r.headers@) == with_headers_set(
                seq![("Content-Type"@, mime_of(path))],
                security_header_list(level, is_https),
            )
            &&& r.body is Bytes
            &&& r.body->Bytes_0@ == b@
        },
        None => is_text(r, 404, "Not Found"@) && headers_view(r.headers@) == security_header_list(
            level,
            is_https,
        ),
    }
}

fn text_response(status: u16, headers: Vec<Header>, t: &str) -> (r: Response)
    ensures
        is_text(r, status, t@),
        r.headers == headers,
{
    Response { status, headers, body: Body::Text(String::from_str(t)) }
}

fn plain_text(status: u16, t: String) -> (r: Response)
    ensures
        r.status == status,
        headers_view(r.headers@) == plain_text_headers(),
        r.body is Text && r.body->Text_0@ == t@,
{
    let mut headers: Vec<Header> = Vec::new();
    push_header(&mut headers, "Content-Type", "text/plain");
    assert(headers_view(Seq::<Header>::empty()) =~= seq![]);
    Response { status, headers, body: Body::Text(t) }
}

/// The CORS preflight reply.
pub fn preflight_response() -> (r: Response)
    ensures
        is_preflight(r),
{
    let mut headers: Vec<Header> = Vec::new();
    assert(headers_view(headers@) =~= seq![]);
    push_header(&mut headers, "Access-Control-Allow-Origin", "*");
    push_header(&mut headers, "Access-Control-Allow-Methods", "GET, POST, OPTIONS");
    push_header(&mut headers, "Access-Control-Allow-Headers", "Content-Type, Authorization");
    assert(headers_view(headers@) =~= preflight_headers());
    Response { status: 204, headers, body: Body::Empty }
}

/// The health reply.
pub fn health_response() -> (r: Response)
    ensures
        is_health(r),
{
    plain_text(200, String::from_str("OK"))
}

/// The metrics reply for `limiter`.
pub fn metrics_response(limiter: &RateLimiter) -> (r: Response)
    ensures
        is_metrics(r, limiter@),
{
    let t = metrics(limiter);
    plain_text(200, t)
}

/// The reply when no route applies.
pub fn fallback_response(level: u8, is_https: bool) -> (r: Response)
    ensures
        is_fallback(r, level, is_https),
{
    let r = text_response(200, Vec::new(), "Hello from Haxxserver");
    assert(headers_view(r.headers@) =~= seq![]);
    let out = add_security_headers(r, level, is_https);
    assert(with_headers_set(seq![], security_header_list(level, is_https)) =~= security_header_list(level, is_https));
    out
}

/// The reply when forwarding to the upstream fails: 502 `Bad Gateway`, with
/// the security headers.
pub fn bad_gateway_response(level: u8, is_https: bool) -> (r: Response)
    ensures
        is_text(r, 502, "Bad Gateway"@),
        headers_view(r.headers@) == security_header_list(level, is_https),
{
    let r = text_response(502, Vec::new(), "Bad Gateway");
    assert(headers_view(r.headers@) =~= seq![]);
    let out = add_security_headers(r, level, is_https);
    assert(with_headers_set(seq![], security_header_list(level, is_https)) =~= security_header_list(level, is_https));
    out
}

/// The reply to a client over its rate limit.
pub fn too_many_requests_response() -> (r: Response)
    ensures
        is_too_many(r),
{
    text_response(429, Vec::new(), "Too Many Requests")
}

/// The reply carrying a file's `bytes` as `content_type`, with the security headers.
pub fn file_found_response(content_type: &str, bytes: Vec<u8>, level: u8, is_https: bool) -> (r: Response)
    ensures
        r.status == 200,
        headers_view(r.headers@) == with_headers_set(
            seq![("Content-Type"@, content_type@)],
            security_header_list(level, is_https),
        ),
        r.body == Body::Bytes(bytes),
{
    let mut headers: Vec<Header> = Vec::new();
    assert(headers_view(headers@) =~= seq![]);
    push_header(&mut headers, "Content-Type", content_type);
    let r = Response { status: 200, headers, body: Body::Bytes(bytes) };
    add_security_headers(r, level, is_https)
}

/// The reply when a file cannot be read: 404 `Not Found`, with the security headers.
pub fn not_found_response(level: u8, is_https: bool) -> (r: Response)
    ensures
        is_text(r, 404, "Not Found"@),
        headers_view(r.headers@) == security_header_list(level, is_https),
{
    let r = text_response(404, Vec::new(), "Not Found");
    assert(headers_view(r.headers@) =~= seq![]);
    let out = add_security_headers(r, level, is_https);
    assert(with_headers_set(seq![], security_header_list(level, is_https)) =~= security_header_list(level, is_https));
    out
}

/// The reply for the file at `path` whose read gave `contents`, or `None`
/// when the read failed in any way.
pub fn static_file_response(path: &str, contents: Option<Vec<u8>>, level: u8, is_https: bool) -> (r: Response)
    ensures
        is_static_reply(r, path@, contents, level, is_https),
{
    match contents {
        Some(b) => {
            let mime = guess_mime(path);
            file_found_response(mime.as_str(), b, level, is_https)
        },
        None => not_found_response(level, is_https),
    }
}

/// What the server does for a request.
#[derive(Clone, Debug, PartialEq, Eq)]
pub enum Action {
    /// Send this response.
    Reply(Response),
    /// Send this response: the request is over its client's rate limit and
    /// goes no further.
    Reject(Response),
    /// Read the file at this path and answer with `static_file_response`.
    ServeFile(String),
    /// Forward the request to this upstream URI and relay the answer with the
    /// security headers set.
    Forward(String),
}

/// `a` is what the server does for `req` under `cfg`, with the rate
/// counters `m`, following the route that `resolves_to` picks; `is_secure`
/// tells whether the request came over an encrypted channel.
pub open spec fn handled(
    req: RequestHead,
    cfg: Config,
    m: Map<Seq<char>, (u32, u64)>,
    is_secure: bool,
    a: Action,
) -> bool {
    let method = req.method@;
    let path = req.path@;
    let pq = path_and_query(path, req.query);
    if method == "OPTIONS"@ {
        a is Reply && is_preflight(a->Reply_0)
    } else if path == "/health"@ {
        a is Reply && is_health(a->Reply_0)
    } else if path == "/metrics"@ {
        a is Reply && is_metrics(a->Reply_0, m)
    } else if !no_static(cfg.static_routes@, path) {
        exists|i: int|
            #[trigger] first_static(cfg.static_routes@, path, i) && a is ServeFile
                && a->ServeFile_0@ == static_path(cfg.static_routes@[i].file@, cfg.static_dir@)
    } else if !no_proxy(cfg.reverse_proxy_routes@, path) {
        exists|i: int|
            #[trigger] first_proxy(cfg.reverse_proxy_routes@, path, i) && a is Forward
                && a->Forward_0@ == proxy_uri(cfg.reverse_proxy_routes@[i].target@, pq)
    } else if cfg.proxy_enabled && starts_with(path, cfg.proxy_route@) {
        a is Forward && a->Forward_0@ == proxy_uri(cfg.proxy_target@, pq)
    } else if method == "GET"@ {
        a is ServeFile && a->ServeFile_0@ == static_path(default_file(path), cfg.static_dir@)
    } else {
        a is Reply && is_fallback(a->Reply_0, cfg.security_level, is_secure)
    }
}

/// Decides what the server does for `req` under `config`, the request having
/// come over an encrypted channel or not (`is_secure`).
pub fn handle_request(req: &RequestHead, config: &Config, limiter: &RateLimiter, is_secure: bool) -> (r: Action)
    ensures
        handled(*req, *config, limiter@, is_secure, r),
{
    let d = resolve(req, config);
    match d {
        RouteDecision::Preflight => Action::Reply(preflight_response()),
        RouteDecision::Health => Action::Reply(health_response()),
        RouteDecision::Metrics => Action::Reply(metrics_response(limiter)),
        RouteDecision::StaticFile(f) => Action::ServeFile(
            static_file_path(f.as_str(), config.static_dir.as_str()),
        ),
        RouteDecision::ReverseProxy(t) => {
            let pq = join_path_and_query(req.path.as_str(), &req.query);
            Action::Forward(proxy_target_uri(t.as_str(), pq.as_str()))
        },
        RouteDecision::DefaultStatic => {
            let file = default_static_file(req.path.as_str());
            Action::ServeFile(static_file_path(file.as_str(), config.static_dir.as_str()))
        },
        RouteDecision::Fallback => Action::Reply(
            fallback_response(config.security_level, is_secure),
        ),
    }
}

/// Handles one request from `remote` at `now` (nanoseconds on a monotonic
/// clock), over an encrypted channel or not (`is_secure`): counts it, answers
/// a CORS preflight whatever the count, answers 429 to any other request over
/// the limit, and otherwise decides as `handle_request` does, with the
/// counters as they stand after this request.
pub fn serve_request(
    limiter: &mut RateLimiter,
    remote: &String,
    now: u64,
    req: &RequestHead,
    config: &Config,
    is_secure: bool,
) -> (r: Action)
    ensures
        final(limiter)@ == old(limiter)@.insert(
            remote@,
            rate_step(entry_of(old(limiter)@, remote@), now).0,
        ),
        req.method@ == "OPTIONS"@ ==> r is Reply && is_preflight(r->Reply_0),
        req.method@ != "OPTIONS"@ && rate_step(entry_of(old(limiter)@, remote@), now).1
            ==> handled(*req, *config, final(limiter)@, is_secure, r),
        req.method@ != "OPTIONS"@ && !rate_step(entry_of(old(limiter)@, remote@), now).1
            ==> r is Reject && is_too_many(r->Reject_0),
{
    let admitted = check_rate_limit(limiter, remote, now);
    if str_eq(req.method.as_str(), "OPTIONS") {
        Action::Reply(preflight_response())
    } else if admitted {
        handle_request(req, config, limiter, is_secure)
    } else {
        Action::Reject(too_many_requests_response())
    }
}

/// Reverse-proxy routes are tried in their configured order and the first
/// prefix that matches wins, even where a later route's prefix is longer.
pub proof fn lemma_first_prefix_wins(method: Seq<char>, path: Seq<char>, cfg: Config, d: RouteDecision, i: int, j: int)
    requires
        resolves_to(method, path, cfg, d),
        method != "OPTIONS"@,
        path != "/health"@,
        path != "/metrics"@,
        no_static(cfg.static_routes@, path),
        0 <= i < j < cfg.reverse_proxy_routes@.len(),
        starts_with(path, cfg.reverse_proxy_routes@[i].path@),
        starts_with(path, cfg.reverse_proxy_routes@[j].path@),
        forall|k: int| 0 <= k < i ==> !starts_with(path, cfg.reverse_proxy_routes@[k].path@),
    ensures
        d is ReverseProxy,
        d->ReverseProxy_0@ == cfg.reverse_proxy_routes@[i].target@,
{
    assert(!no_proxy(cfg.reverse_proxy_routes@, path));
    let w = choose|w: int|
        #[trigger] first_proxy(cfg.reverse_proxy_routes@, path, w) && d is ReverseProxy
            && d->ReverseProxy_0@ == cfg.reverse_proxy_routes@[w].target@;
    if w < i {
    } else if w > i {
        assert(!starts_with(path, cfg.reverse_proxy_routes@[i].path@));
    }
}

/// Dispatch answers an `OPTIONS` request to any path, under any route table,
/// with 204, the three CORS headers and no body.
pub proof fn lemma_preflight_always(
    req: RequestHead,
    cfg: Config,
    m: Map<Seq<char>, (u32, u64)>,
    is_secure: bool,
    a: Action,
)
    requires
        handled(req, cfg, m, is_secure, a),
        req.method@ == "OPTIONS"@,
    ensures
        a is Reply,
        a->Reply_0.status == 204,
        a->Reply_0.body is Empty,
        headers_view(a->Reply_0.headers@) == preflight_headers(),
{
}

/// A file that a request is routed to and that cannot be read is answered
/// 404 `Not Found`, with the security headers of the configured level and
/// the request's transport.
pub proof fn lemma_missing_file_not_found(
    req: RequestHead,
    cfg: Config,
    m: Map<Seq<char>, (u32, u64)>,
    is_secure: bool,
    a: Action,
    r: Response,
)
    requires
        handled(req, cfg, m, is_secure, a),
        a is ServeFile,
        is_static_reply(r, a->ServeFile_0@, None, cfg.security_level, is_secure),
    ensures
        r.status == 404,
        r.body is Text && r.body->Text_0@ == "Not Found"@,
        headers_view(r.headers@) == security_header_list(cfg.security_level, is_secure),
{
}

} // verus!
