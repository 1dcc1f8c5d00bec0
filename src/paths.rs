//! Paths and URIs: where a static file is looked up, and where a proxied
//! request goes.
use vstd::prelude::*;
use vstd::string::*;

verus! {

/// A path is absolute when it begins at the root, `/`.
pub open spec fn is_absolute(s: Seq<char>) -> bool {
    s.len() > 0 && s[0] == '/'
}

/// Tests whether `s` is an absolute path.
pub fn is_absolute_path(s: &str) -> (r: bool)
    ensures
        r == is_absolute(s@),
{
    s.unicode_len() > 0 && s.get_char(0) == '/'
}

/// Where a configured file is looked up: as given when absolute, else under `dir`.
pub open spec fn static_path(file: Seq<char>, dir: Seq<char>) -> Seq<char> {
    if is_absolute(file) {
        file
    } else {
        dir + "/"@ + file
    }
}

/// The full path of the configured `file` under the static directory `dir`.
pub fn static_file_path(file: &str, dir: &str) -> (r: String)
    ensures
        r@ == static_path(file@, dir@),
{
    if is_absolute_path(file) {
        String::from_str(file)
    } else {
        let mut out = String::from_str(dir);
        out.append("/");
        out.append(file);
        out
    }
}

/// `s` without its leading slashes.
pub open spec fn strip_leading_slashes(s: Seq<char>) -> Seq<char>
    decreases s.len(),
{
    if s.len() > 0 && s[0] == '/' {
        strip_leading_slashes(s.drop_first())
    } else {
        s
    }
}

/// `s` without its trailing slashes.
pub open spec fn strip_trailing_slashes(s: Seq<char>) -> Seq<char>
    decreases s.len(),
{
    if s.len() > 0 && s.last() == '/' {
        strip_trailing_slashes(s.drop_last())
    } else {
        s
    }
}

/// Removes every leading `/` from `s`.
pub fn trim_leading_slashes(s: &str) -> (r: String)
    ensures
        r@ == strip_leading_slashes(s@),
{
    let n = s.unicode_len();
    let mut k: usize = 0;
    assert(s@.subrange(0, n as int) =~= s@);
    while k < n && s.get_char(k) == '/'
        invariant
            n == s@.len(),
            k <= n,
            strip_leading_slashes(s@) == strip_leading_slashes(s@.subrange(k as int, n as int)),
        decreases n - k,
    {
        assert(s@.subrange(k as int, n as int).drop_first() =~= s@.subrange(k + 1, n as int));
        k = k + 1;
    }
    String::from_str(s.substring_char(k, n))
}

/// Removes every trailing `/` from `s`.
pub fn trim_trailing_slashes(s: &str) -> (r: String)
    ensures
        r@ == strip_trailing_slashes(s@),
{
    let n = s.unicode_len();
    let mut k: usize = n;
    assert(s@.subrange(0, n as int) =~= s@);
    while k > 0 && s.get_char(k - 1) == '/'
        invariant
            n == s@.len(),
            k <= n,
            strip_trailing_slashes(s@) == strip_trailing_slashes(s@.subrange(0, k as int)),
        decreases k,
    {
        assert(s@.subrange(0, k as int).drop_last() =~= s@.subrange(0, k - 1));
        k = k - 1;
    }
    String::from_str(s.substring_char(0, k))
}

/// The file that a GET of `path` asks for under the static directory:
/// `index.html` for the root, else the path without its leading slashes.
pub open spec fn default_file(path: Seq<char>) -> Seq<char> {
    if path == "/"@ {
        "index.html"@
    } else {
        strip_leading_slashes(path)
    }
}

/// The file that a GET of `path` asks for under the static directory.
pub fn default_static_file(path: &str) -> (r: String)
    ensures
        r@ == default_file(path@),
{
    if crate::text::str_eq(path, "/") {
        String::from_str("index.html")
    } else {
        trim_leading_slashes(path)
    }
}

/// A request's path and query as it appears in the request line.
pub open spec fn path_and_query(path: Seq<char>, query: Option<String>) -> Seq<char> {
    match query {
        Some(q) => path + "?"@ + q@,
        None => path,
    }
}

/// Joins `path` and the optional `query` with `?`.
pub fn join_path_and_query(path: &str, query: &Option<String>) -> (r: String)
    ensures
        r@ == path_and_query(path@, *query),
{
    let mut out = String::from_str(path);
    match query {
        Some(q) => {
            out.append("?");
            out.append(q.as_str());
        },
        None => {},
    }
    out
}

/// The upstream URI of a proxied request: the target without trailing
/// slashes, then the request's path and query.
pub open spec fn proxy_uri(target: Seq<char>, path_and_query: Seq<char>) -> Seq<char> {
    strip_trailing_slashes(target) + path_and_query
}

/// The upstream URI for forwarding a request with `path_and_query` to `target`.
pub fn proxy_target_uri(target: &str, path_and_query: &str) -> (r: String)
    ensures
        r@ == proxy_uri(target@, path_and_query@),
{
    let mut out = trim_trailing_slashes(target);
    out.append(path_and_query);
    out
}

} // verus!
