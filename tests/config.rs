use haxxserver::config::{
    Config, ConfFile, ProxySection, ReverseProxyEntry, ReverseProxySection, ServerSection, StaticRouteEntry,
    StaticRoutesSection,
};

fn empty_server() -> ServerSection {
    ServerSection {
        http_addr: None,
        https_addr: None,
        cert_path: None,
        key_path: None,
        static_dir: None,
        security_level: None,
        enable_https: None,
    }
}

#[test]
fn defaults_for_a_bare_file() {
    let c = Config::new(ConfFile { server: empty_server(), proxy: None, reverse_proxy: None, static_routes: None });
    assert_eq!(c.http_addr, "127.0.0.1:8080");
    assert_eq!(c.https_addr, "127.0.0.1:8443");
    assert_eq!(c.cert_path, "certs/cert.pem");
    assert_eq!(c.key_path, "certs/key.pem");
    assert_eq!(c.static_dir, "public");
    assert_eq!(c.security_level, 0);
    assert!(c.enable_https);
    assert!(!c.proxy_enabled);
    assert_eq!(c.proxy_route, "");
    assert_eq!(c.proxy_target, "");
    assert!(!c.reverse_proxy_enabled);
    assert!(c.reverse_proxy_routes.is_empty());
    assert!(c.static_routes.is_empty());
}

#[test]
fn empty_proxy_section_defaults() {
    let c = Config::new(ConfFile {
        server: empty_server(),
        proxy: Some(ProxySection { enable: None, route: None, target: None }),
        reverse_proxy: Some(ReverseProxySection { enable: Some(true), routes: None }),
        static_routes: Some(StaticRoutesSection { routes: None }),
    });
    assert_eq!(c.proxy_route, "/api/");
    assert_eq!(c.proxy_target, "http://localhost:3000");
    assert!(!c.proxy_enabled);
    assert!(c.reverse_proxy_enabled);
    assert!(c.reverse_proxy_routes.is_empty());
}

#[test]
fn given_values_are_kept() {
    let mut server = empty_server();
    server.http_addr = Some("0.0.0.0:80".to_string());
    server.security_level = Some(2);
    server.enable_https = Some(false);
    server.static_dir = Some("/var/www".to_string());
    let routes = vec![ReverseProxyEntry { path: "/g/".to_string(), target: "https://google.com".to_string() }];
    let statics = vec![StaticRouteEntry { path: "/about".to_string(), file: "info/about.html".to_string() }];
    let c = Config::new(ConfFile {
        server,
        proxy: Some(ProxySection { enable: Some(true), route: Some("/p/".to_string()), target: Some("http://p".to_string()) }),
        reverse_proxy: Some(ReverseProxySection { enable: Some(false), routes: Some(routes.clone()) }),
        static_routes: Some(StaticRoutesSection { routes: Some(statics.clone()) }),
    });
    assert_eq!(c.http_addr, "0.0.0.0:80");
    assert_eq!(c.security_level, 2);
    assert!(!c.enable_https);
    assert_eq!(c.static_dir, "/var/www");
    assert!(c.proxy_enabled);
    assert_eq!(c.proxy_route, "/p/");
    assert_eq!(c.proxy_target, "http://p");
    assert_eq!(c.reverse_proxy_routes, routes);
    assert_eq!(c.static_routes, statics);
}
