//! The route table and server settings, and how a configuration file's
//! optional settings are defaulted.
use vstd::prelude::*;
use vstd::string::*;

verus! {

/// A reverse-proxy mapping: requests whose path starts with `path` go to `target`.
#[derive(Clone, Debug, PartialEq, Eq)]
pub struct ReverseProxyEntry {
    pub path: String,
    pub target: String,
}

/// A static mapping: requests whose path equals `path` are served `file`.
#[derive(Clone, Debug, PartialEq, Eq)]
pub struct StaticRouteEntry {
    pub path: String,
    pub file: String,
}

/// The server's settings and route table, fixed once loaded.
#[derive(Clone, Debug, PartialEq, Eq)]
pub struct Config {
    pub http_addr: String,
    pub https_addr: String,
    pub cert_path: String,
    pub key_path: String,
    pub static_dir: String,
    pub security_level: u8,
    pub enable_https: bool,
    pub proxy_enabled: bool,
    pub proxy_route: String,
    pub proxy_target: String,
    pub reverse_proxy_enabled: bool,
    pub reverse_proxy_routes: Vec<ReverseProxyEntry>,
    pub static_routes: Vec<StaticRouteEntry>,
}

/// The `[server]` section of a configuration file.
pub struct ServerSection {
    pub http_addr: Option<String>,
    pub https_addr: Option<String>,
    pub cert_path: Option<String>,
    pub key_path: Option<String>,
    pub static_dir: Option<String>,
    pub security_level: Option<u8>,
    pub enable_https: Option<bool>,
}

/// The `[proxy]` section: the single legacy proxy rule.
pub struct ProxySection {
    pub enable: Option<bool>,
    pub route: Option<String>,
    pub target: Option<String>,
}

/// The `[reverse_proxy]` section.
pub struct ReverseProxySection {
    pub enable: Option<bool>,
    pub routes: Option<Vec<ReverseProxyEntry>>,
}

/// The `[static_routes]` section.
pub struct StaticRoutesSection {
    pub routes: Option<Vec<StaticRouteEntry>>,
}

/// A configuration file as read, before defaults are filled in.
pub struct ConfFile {
    pub server: ServerSection,
    pub proxy: Option<ProxySection>,
    pub reverse_proxy: Option<ReverseProxySection>,
    pub static_routes: Option<StaticRoutesSection>,
}

/// The text of `o`, or `d` where it is absent.
pub open spec fn text_or(o: Option<String>, d: Seq<char>) -> Seq<char> {
    match o {
        Some(s) => s@,
        None => d,
    }
}

/// The value of `o`, or `d` where it is absent.
pub open spec fn flag_or(o: Option<bool>, d: bool) -> bool {
    match o {
        Some(b) => b,
        None => d,
    }
}

/// The legacy proxy rule's route: a missing section gives an empty route,
/// a section without one gives `/api/`.
pub open spec fn proxy_route_of(p: Option<ProxySection>) -> Seq<char> {
    match p {
        Some(s) => text_or(s.route, "/api/"@),
        None => Seq::empty(),
    }
}

/// The legacy proxy rule's target: a missing section gives an empty target,
/// a section without one gives `http://localhost:3000`.
pub open spec fn proxy_target_of(p: Option<ProxySection>) -> Seq<char> {
    match p {
        Some(s) => text_or(s.target, "http://localhost:3000"@),
        None => Seq::empty(),
    }
}

fn string_or(o: Option<String>, d: &str) -> (r: String)
    ensures
        r@ == text_or(o, d@),
{
    match o {
        Some(s) => s,
        None => String::from_str(d),
    }
}

fn bool_or(o: Option<bool>, d: bool) -> (r: bool)
    ensures
        r == flag_or(o, d),
{
    match o {
        Some(b) => b,
        None => d,
    }
}

impl Config {
    /// The settings of `file`, with defaults for what it leaves out. The
    /// static directory is kept as written; making it absolute is the
    /// caller's part.
    pub fn new(file: ConfFile) -> (r: Config)
        ensures
            r.http_addr@ == text_or(file.server.http_addr, "127.0.0.1:8080"@),
            r.https_addr@ == text_or(file.server.https_addr, "127.0.0.1:8443"@),
            r.cert_path@ == text_or(file.server.cert_path, "certs/cert.pem"@),
            r.key_path@ == text_or(file.server.key_path, "certs/key.pem"@),
            r.static_dir@ == text_or(file.server.static_dir, "public"@),
            r.security_level == (match file.server.security_level {
                Some(l) => l,
                None => 0u8,
            }),
            r.enable_https == flag_or(file.server.enable_https, true),
            r.proxy_enabled == (match file.proxy {
                Some(p) => flag_or(p.enable, false),
                None => false,
            }),
            r.proxy_route@ == proxy_route_of(file.proxy),
            r.proxy_target@ == proxy_target_of(file.proxy),
            r.reverse_proxy_enabled == (match file.reverse_proxy {
                Some(p) => flag_or(p.enable, false),
                None => false,
            }),
            r.reverse_proxy_routes@ == (match file.reverse_proxy {
                Some(p) => match p.routes {
                    Some(v) => v@,
                    None => Seq::empty(),
                },
                None => Seq::empty(),
            }),
            r.static_routes@ == (match file.static_routes {
                Some(s) => match s.routes {
                    Some(v) => v@,
                    None => Seq::empty(),
                },
                None => Seq::empty(),
            }),
    {
        let ConfFile { server, proxy, reverse_proxy, static_routes } = file;
        let (proxy_enabled, proxy_route, proxy_target) = match proxy {
            Some(p) => (
                bool_or(p.enable, false),
                string_or(p.route, "/api/"),
                string_or(p.target, "http://localhost:3000"),
            ),
            None => (false, String::new(), String::new()),
        };
        let (reverse_proxy_enabled, reverse_proxy_routes) = match reverse_proxy {
            Some(p) => (
                bool_or(p.enable, false),
                match p.routes {
                    Some(v) => v,
                    None => Vec::new(),
                },
            ),
            None => (false, Vec::new()),
        };
        let static_routes = match static_routes {
            Some(s) => match s.routes {
                Some(v) => v,
                None => Vec::new(),
            },
            None => Vec::new(),
        };
        let security_level = match server.security_level {
            Some(l) => l,
            None => 0,
        };
        Config {
            http_addr: string_or(server.http_addr, "127.0.0.1:8080"),
            https_addr: string_or(server.https_addr, "127.0.0.1:8443"),
            cert_path: string_or(server.cert_path, "certs/cert.pem"),
            key_path: string_or(server.key_path, "certs/key.pem"),
            static_dir: string_or(server.static_dir, "public"),
            security_level,
            enable_https: bool_or(server.enable_https, true),
            proxy_enabled,
            proxy_route,
            proxy_target,
            reverse_proxy_enabled,
            reverse_proxy_routes,
            static_routes,
        }
    }
}

} // verus!
