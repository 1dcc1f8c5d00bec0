use haxxserver::config::{Config, ReverseProxyEntry, StaticRouteEntry};
use haxxserver::rate_limit::{check_rate_limit, RateLimiter};
use haxxserver::router::{
    fallback_response, handle_request, resolve, serve_request, static_file_response, Action, RequestHead, RouteDecision,
};
use haxxserver::security::{security_headers, Body};

fn config() -> Config {
    Config {
        http_addr: "127.0.0.1:8080".to_string(),
        https_addr: "127.0.0.1:8443".to_string(),
        cert_path: "certs/cert.pem".to_string(),
        key_path: "certs/key.pem".to_string(),
        static_dir: "/srv/www".to_string(),
        security_level: 3,
        enable_https: false,
        proxy_enabled: false,
        proxy_route: "/legacy/".to_string(),
        proxy_target: "http://legacy:9000".to_string(),
        reverse_proxy_enabled: true,
        reverse_proxy_routes: vec![
            ReverseProxyEntry { path: "/api/".to_string(), target: "http://a:3000".to_string() },
            ReverseProxyEntry { path: "/api/v2/".to_string(), target: "http://b:4000/".to_string() },
        ],
        static_routes: vec![
            StaticRouteEntry { path: "/login".to_string(), file: "cadastro/login.html".to_string() },
            StaticRouteEntry { path: "/about".to_string(), file: "/opt/site/about.html".to_string() },
            StaticRouteEntry { path: "/login".to_string(), file: "second.html".to_string() },
        ],
    }
}

fn req(method: &str, path: &str, query: Option<&str>) -> RequestHead {
    RequestHead { method: method.to_string(), path: path.to_string(), query: query.map(|q| q.to_string()) }
}

fn header_names(h: &[(String, String)]) -> Vec<&str> {
    h.iter().map(|p| p.0.as_str()).collect()
}

#[test]
fn first_matching_proxy_prefix_wins() {
    let cfg = config();
    assert_eq!(resolve(&req("GET", "/api/v2/x", None), &cfg), RouteDecision::ReverseProxy("http://a:3000".to_string()));
    let lim = RateLimiter::new();
    assert_eq!(
        handle_request(&req("GET", "/api/v2/x", Some("k=1")), &cfg, &lim, false),
        Action::Forward("http://a:3000/api/v2/x?k=1".to_string())
    );
}

#[test]
fn proxy_target_trailing_slashes_are_trimmed() {
    let mut cfg = config();
    cfg.reverse_proxy_routes.reverse();
    let lim = RateLimiter::new();
    assert_eq!(
        handle_request(&req("POST", "/api/v2/items", None), &cfg, &lim, false),
        Action::Forward("http://b:4000/api/v2/items".to_string())
    );
}

#[test]
fn options_is_preflight_on_any_path() {
    let cfg = config();
    let lim = RateLimiter::new();
    for path in ["/", "/login", "/api/x", "/health", "/metrics", "/nothing"] {
        match handle_request(&req("OPTIONS", path, None), &cfg, &lim, false) {
            Action::Reply(r) => {
                assert_eq!(r.status, 204);
                assert_eq!(r.body, Body::Empty);
                assert_eq!(
                    r.headers,
                    vec![
                        ("Access-Control-Allow-Origin".to_string(), "*".to_string()),
                        ("Access-Control-Allow-Methods".to_string(), "GET, POST, OPTIONS".to_string()),
                        ("Access-Control-Allow-Headers".to_string(), "Content-Type, Authorization".to_string()),
                    ]
                );
            }
            other => panic!("unexpected {:?}", other),
        }
    }
}

#[test]
fn options_is_answered_even_over_the_limit() {
    let cfg = config();
    let mut lim = RateLimiter::new();
    let addr = "9.9.9.9".to_string();
    for _ in 0..12 {
        let a = serve_request(&mut lim, &addr, 1, &req("OPTIONS", "/", None), &cfg, false);
        assert!(matches!(a, Action::Reply(ref r) if r.status == 204 && r.body == Body::Empty && r.headers.len() == 3));
    }
    match serve_request(&mut lim, &addr, 2, &req("GET", "/health", None), &cfg, false) {
        Action::Reject(r) => {
            assert_eq!(r.status, 429);
            assert_eq!(r.body, Body::Text("Too Many Requests".to_string()));
            assert!(r.headers.is_empty());
        }
        other => panic!("unexpected {:?}", other),
    }
    match serve_request(&mut lim, &addr, 2, &req("GET", "/metrics", None), &cfg, false) {
        Action::Reject(_) => {}
        other => panic!("unexpected {:?}", other),
    }
    let other = "9.9.9.10".to_string();
    match serve_request(&mut lim, &other, 2, &req("GET", "/metrics", None), &cfg, false) {
        Action::Reply(r) => {
            let t = match r.body {
                Body::Text(t) => t,
                b => panic!("unexpected {:?}", b),
            };
            let mut lines: Vec<&str> = t.lines().collect();
            lines.sort();
            assert_eq!(lines, vec!["9.9.9.10: 1 requests", "9.9.9.9: 14 requests"]);
        }
        other => panic!("unexpected {:?}", other),
    }
}

#[test]
fn transport_decides_hsts_not_config() {
    let mut cfg = config();
    cfg.enable_https = true;
    let lim = RateLimiter::new();
    let plain = handle_request(&req("PATCH", "/x", None), &cfg, &lim, false);
    let tls = handle_request(&req("PATCH", "/x", None), &cfg, &lim, true);
    match (plain, tls) {
        (Action::Reply(p), Action::Reply(t)) => {
            assert_eq!(p.headers, security_headers(3, false));
            assert!(header_names(&p.headers).contains(&"Content-Security-Policy"));
            assert!(!header_names(&p.headers).contains(&"Strict-Transport-Security"));
            assert_eq!(t.headers, security_headers(3, true));
            assert!(header_names(&t.headers).contains(&"Strict-Transport-Security"));
        }
        other => panic!("unexpected {:?}", other),
    }
}

#[test]
fn health_and_metrics() {
    let cfg = config();
    let mut lim = RateLimiter::new();
    match serve_request(&mut lim, &"5.5.5.5:5".to_string(), 0, &req("GET", "/health", None), &cfg, false) {
        Action::Reply(r) => {
            assert_eq!(r.status, 200);
            assert_eq!(r.body, Body::Text("OK".to_string()));
            assert_eq!(r.headers, vec![("Content-Type".to_string(), "text/plain".to_string())]);
        }
        other => panic!("unexpected {:?}", other),
    }
    match serve_request(&mut lim, &"5.5.5.5:5".to_string(), 0, &req("POST", "/metrics", None), &cfg, false) {
        Action::Reply(r) => {
            assert_eq!(r.status, 200);
            assert_eq!(r.body, Body::Text("5.5.5.5:5: 2 requests\n".to_string()));
        }
        other => panic!("unexpected {:?}", other),
    }
}

#[test]
fn static_route_first_exact_match() {
    let cfg = config();
    let lim = RateLimiter::new();
    assert_eq!(resolve(&req("GET", "/login", None), &cfg), RouteDecision::StaticFile("cadastro/login.html".to_string()));
    assert_eq!(
        handle_request(&req("POST", "/login", None), &cfg, &lim, false),
        Action::ServeFile("/srv/www/cadastro/login.html".to_string())
    );
    assert_eq!(
        handle_request(&req("GET", "/about", None), &cfg, &lim, false),
        Action::ServeFile("/opt/site/about.html".to_string())
    );
    assert_eq!(resolve(&req("GET", "/login/", None), &cfg), RouteDecision::DefaultStatic);
}

#[test]
fn legacy_proxy_only_when_enabled() {
    let mut cfg = config();
    let lim = RateLimiter::new();
    assert_eq!(resolve(&req("PUT", "/legacy/x", None), &cfg), RouteDecision::Fallback);
    cfg.proxy_enabled = true;
    assert_eq!(
        handle_request(&req("PUT", "/legacy/x", None), &cfg, &lim, false),
        Action::Forward("http://legacy:9000/legacy/x".to_string())
    );
}

#[test]
fn default_static_paths() {
    let cfg = config();
    let lim = RateLimiter::new();
    assert_eq!(handle_request(&req("GET", "/", None), &cfg, &lim, false), Action::ServeFile("/srv/www/index.html".to_string()));
    assert_eq!(
        handle_request(&req("GET", "//css/site.css", Some("v=2")), &cfg, &lim, false),
        Action::ServeFile("/srv/www/css/site.css".to_string())
    );
}

#[test]
fn get_root_serves_index_with_content_type() {
    let cfg = config();
    let lim = RateLimiter::new();
    let path = match handle_request(&req("GET", "/", None), &cfg, &lim, false) {
        Action::ServeFile(p) => p,
        other => panic!("unexpected {:?}", other),
    };
    let bytes = b"<html>hi</html>".to_vec();
    let r = static_file_response(&path, Some(bytes.clone()), cfg.security_level, cfg.enable_https);
    assert_eq!(r.status, 200);
    assert_eq!(r.body, Body::Bytes(bytes));
    assert_eq!(r.headers[0], ("Content-Type".to_string(), "text/html".to_string()));
    assert_eq!(r.headers[1..].to_vec(), security_headers(3, false));
}

#[test]
fn content_type_follows_extension() {
    let css = static_file_response("/x/site.css", Some(vec![1]), 0, false);
    assert_eq!(css.headers[0].1, "text/css");
    let unknown = static_file_response("/x/blob", Some(vec![]), 0, false);
    assert_eq!(unknown.headers[0].1, "application/octet-stream");
}

#[test]
fn missing_static_file_is_not_found_with_security_headers() {
    let r = static_file_response("/srv/www/missing.html", None, 2, true);
    assert_eq!(r.status, 404);
    assert_eq!(r.body, Body::Text("Not Found".to_string()));
    assert_eq!(r.headers, security_headers(2, true));
    assert_eq!(
        header_names(&r.headers),
        vec!["X-XSS-Protection", "Anti-Xss", "X-Content-Type-Options", "Access-Control-Allow-Origin", "Strict-Transport-Security"]
    );
}

#[test]
fn non_get_without_route_falls_back() {
    let mut cfg = config();
    cfg.security_level = 1;
    cfg.enable_https = true;
    let lim = RateLimiter::new();
    let a = handle_request(&req("DELETE", "/whatever", None), &cfg, &lim, true);
    assert_eq!(a, Action::Reply(fallback_response(1, true)));
    match a {
        Action::Reply(r) => {
            assert_eq!(r.status, 200);
            assert_eq!(r.body, Body::Text("Hello from Haxxserver".to_string()));
            assert_eq!(r.headers, security_headers(1, true));
        }
        other => panic!("unexpected {:?}", other),
    }
}

#[test]
fn metrics_counts_rejected_requests_too() {
    let cfg = config();
    let mut lim = RateLimiter::new();
    let addr = "8.8.8.8:53".to_string();
    for _ in 0..11 {
        check_rate_limit(&mut lim, &addr, 0);
    }
    match serve_request(&mut lim, &"8.8.4.4:53".to_string(), 0, &req("GET", "/metrics", None), &cfg, false) {
        Action::Reply(r) => match r.body {
            Body::Text(t) => {
                let mut lines: Vec<&str> = t.lines().collect();
                lines.sort();
                assert_eq!(lines, vec!["8.8.4.4:53: 1 requests", "8.8.8.8:53: 11 requests"]);
            }
            other => panic!("unexpected {:?}", other),
        },
        other => panic!("unexpected {:?}", other),
    }
}

#[test]
fn upstream_failure_is_bad_gateway() {
    let r = haxxserver::router::bad_gateway_response(0, true);
    assert_eq!(r.status, 502);
    assert_eq!(r.body, Body::Text("Bad Gateway".to_string()));
    assert_eq!(header_names(&r.headers), vec!["Access-Control-Allow-Origin", "Strict-Transport-Security"]);
}

#[test]
fn found_file_reply_uses_given_content_type() {
    let r = haxxserver::router::file_found_response("image/png", vec![137, 80], 2, false);
    assert_eq!(r.status, 200);
    assert_eq!(r.body, Body::Bytes(vec![137, 80]));
    assert_eq!(
        header_names(&r.headers),
        vec!["Content-Type", "X-XSS-Protection", "Anti-Xss", "X-Content-Type-Options", "Access-Control-Allow-Origin"]
    );
    assert_eq!(r.headers[0].1, "image/png");
    let nf = haxxserver::router::not_found_response(0, false);
    assert_eq!(nf.status, 404);
    assert_eq!(nf.body, Body::Text("Not Found".to_string()));
}
