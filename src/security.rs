//! The tiered security-header policy, and the response model it applies to.
use vstd::prelude::*;
use vstd::string::*;

verus! {

/// An HTTP header: name and value.
pub type Header = (String, String);

/// The names and values of a header list.
pub open spec fn headers_view(h: Seq<Header>) -> Seq<(Seq<char>, Seq<char>)> {
    Seq::new(h.len(), |i: int| (h[i].0@, h[i].1@))
}

/// The headers that the policy adds at `level` (cumulative tiers 1 to 3) over
/// a secure or an insecure transport, in the order they are added.
pub open spec fn security_header_list(level: u8, is_https: bool) -> Seq<(Seq<char>, Seq<char>)> {
    (if level >= 1 {
        seq![("X-XSS-Protection"@, "1; mode=block"@), ("Anti-Xss"@, "enabled"@)]
    } else {
        seq![]
    }) + (if level >= 2 {
        seq![("X-Content-Type-Options"@, "nosniff"@)]
    } else {
        seq![]
    }) + (if level >= 3 {
        seq![
            ("X-Frame-Options"@, "DENY"@),
            ("Content-Security-Policy"@, "default-src 'self'; script-src 'self'"@),
            ("Referrer-Policy"@, "no-referrer"@),
            ("Permissions-Policy"@, "geolocation=(), microphone=(), camera=()"@),
        ]
    } else {
        seq![]
    }) + seq![("Access-Control-Allow-Origin"@, "*"@)] + (if is_https {
        seq![("Strict-Transport-Security"@, "max-age=31536000; includeSubDomains"@)]
    } else {
        seq![]
    })
}

/// Appends the header `name: value` to `headers`.
pub fn push_header(headers: &mut Vec<Header>, name: &str, value: &str)
    ensures
        headers_view(final(headers)@) == headers_view(old(headers)@).push((name@, value@)),
{
    headers.push((String::from_str(name), String::from_str(value)));
    assert(headers_view(headers@) =~= headers_view(old(headers)@).push((name@, value@)));
}

/// The security headers for `level` over a secure (`is_https`) or insecure transport.
pub fn security_headers(level: u8, is_https: bool) -> (r: Vec<Header>)
    ensures
        headers_view(r@) == security_header_list(level, is_https),
{
    let mut h: Vec<Header> = Vec::new();
    assert(headers_view(h@) =~= seq![]);
    if level >= 1 {
        push_header(&mut h, "X-XSS-Protection", "1; mode=block");
        push_header(&mut h, "Anti-Xss", "enabled");
    }
    if level >= 2 {
        push_header(&mut h, "X-Content-Type-Options", "nosniff");
    }
    if level >= 3 {
        push_header(&mut h, "X-Frame-Options", "DENY");
        push_header(&mut h, "Content-Security-Policy", "default-src 'self'; script-src 'self'");
        push_header(&mut h, "Referrer-Policy", "no-referrer");
        push_header(&mut h, "Permissions-Policy", "geolocation=(), microphone=(), camera=()");
    }
    push_header(&mut h, "Access-Control-Allow-Origin", "*");
    if is_https {
        push_header(&mut h, "Strict-Transport-Security", "max-age=31536000; includeSubDomains");
    }
    assert(headers_view(h@) =~= security_header_list(level, is_https));
    h
}

/// A response body.
#[derive(Clone, Debug, PartialEq, Eq)]
pub enum Body {
    Empty,
    Text(String),
    Bytes(Vec<u8>),
}

/// A response produced by the server itself.
#[derive(Clone, Debug, PartialEq, Eq)]
pub struct Response {
    pub status: u16,
    pub headers: Vec<Header>,
    pub body: Body,
}

/// Some header of `l` is named `n`.
pub open spec fn has_name(l: Seq<(Seq<char>, Seq<char>)>, n: Seq<char>) -> bool {
    exists|i: int| 0 <= i < l.len() && #[trigger] l[i].0 == n
}

/// The headers of `h`, in order, but those named as some header of `l`.
pub open spec fn drop_named(
    h: Seq<(Seq<char>, Seq<char>)>,
    l: Seq<(Seq<char>, Seq<char>)>,
) -> Seq<(Seq<char>, Seq<char>)>
    decreases h.len(),
{
    if h.len() == 0 {
        seq![]
    } else if has_name(l, h.last().0) {
        drop_named(h.drop_last(), l)
    } else {
        drop_named(h.drop_last(), l).push(h.last())
    }
}

/// `h` with each header of `l` set: the headers of `h` that `l` names give
/// way, the others stay in order, and `l` follows.
pub open spec fn with_headers_set(
    h: Seq<(Seq<char>, Seq<char>)>,
    l: Seq<(Seq<char>, Seq<char>)>,
) -> Seq<(Seq<char>, Seq<char>)> {
    drop_named(h, l) + l
}

/// Tests whether some header of `l` is named `name`.
fn is_named_in(l: &Vec<Header>, name: &str) -> (r: bool)
    ensures
        r == has_name(headers_view(l@), name@),
{
    let mut i: usize = 0;
    while i < l.len()
        invariant
            i <= l@.len(),
            forall|j: int| 0 <= j < i ==> l@[j].0@ != name@,
        decreases l@.len() - i,
    {
        if crate::text::str_eq(l[i].0.as_str(), name) {
            assert(headers_view(l@)[i as int].0 == name@);
            return true;
        }
        i = i + 1;
    }
    assert(!has_name(headers_view(l@), name@)) by {
        assert forall|j: int| 0 <= j < headers_view(l@).len() implies #[trigger] headers_view(
            l@,
        )[j].0 != name@ by {
            assert(headers_view(l@)[j].0 == l@[j].0@);
        }
    }
    false
}

/// Sets each header of `l` on `headers`: a header of the same name is
/// replaced, the rest stay in order.
pub fn set_headers(headers: Vec<Header>, l: &Vec<Header>) -> (r: Vec<Header>)
    ensures
        headers_view(r@) == with_headers_set(headers_view(headers@), headers_view(l@)),
{
    let ghost hv = headers_view(headers@);
    let ghost lv = headers_view(l@);
    let mut out: Vec<Header> = Vec::new();
    let mut i: usize = 0;
    assert(hv.take(0) =~= seq![]);
    assert(headers_view(out@) =~= seq![]);
    while i < headers.len()
        invariant
            i <= headers@.len(),
            hv == headers_view(headers@),
            lv == headers_view(l@),
            headers_view(out@) == drop_named(hv.take(i as int), lv),
        decreases headers@.len() - i,
    {
        let named = is_named_in(l, headers[i].0.as_str());
        assert(hv.take(i + 1).drop_last() =~= hv.take(i as int));
        assert(hv.take(i + 1).last() == hv[i as int]);
        if !named {
            push_header(&mut out, headers[i].0.as_str(), headers[i].1.as_str());
        }
        i = i + 1;
    }
    assert(hv.take(i as int) =~= hv);
    let mut k: usize = 0;
    let ghost kept = headers_view(out@);
    while k < l.len()
        invariant
            k <= l@.len(),
            lv == headers_view(l@),
            headers_view(out@) == kept + lv.take(k as int),
        decreases l@.len() - k,
    {
        push_header(&mut out, l[k].0.as_str(), l[k].1.as_str());
        assert(lv.take(k + 1) =~= lv.take(k as int).push(lv[k as int]));
        assert(kept + lv.take(k + 1) =~= (kept + lv.take(k as int)).push(lv[k as int]));
        k = k + 1;
    }
    assert(lv.take(k as int) =~= lv);
    out
}

/// Sets the security headers for `level` and the transport on `resp`,
/// replacing any header of the same name and leaving its status, body and
/// other headers as they are.
pub fn add_security_headers(resp: Response, level: u8, is_https: bool) -> (r: Response)
    ensures
        r.status == resp.status,
        r.body == resp.body,
        headers_view(r.headers@) == with_headers_set(
            headers_view(resp.headers@),
            security_header_list(level, is_https),
        ),
{
    let extra = security_headers(level, is_https);
    let Response { status, headers, body } = resp;
    let headers = set_headers(headers, &extra);
    Response { status, headers, body }
}

proof fn lemma_drop_named_add(a: Seq<(Seq<char>, Seq<char>)>, b: Seq<(Seq<char>, Seq<char>)>, l: Seq<(Seq<char>, Seq<char>)>)
    ensures
        drop_named(a + b, l) == drop_named(a, l) + drop_named(b, l),
    decreases b.len(),
{
    if b.len() == 0 {
        assert(a + b =~= a);
        assert(drop_named(a, l) + seq![] =~= drop_named(a, l));
    } else {
        assert((a + b).drop_last() =~= a + b.drop_last());
        assert((a + b).last() == b.last());
        lemma_drop_named_add(a, b.drop_last(), l);
        if !has_name(l, b.last().0) {
            assert(drop_named(a, l) + drop_named(b.drop_last(), l).push(b.last()) =~= (drop_named(
                a,
                l,
            ) + drop_named(b.drop_last(), l)).push(b.last()));
        }
    }
}

/// No header that `drop_named` keeps is named in `l`.
proof fn lemma_drop_named_unnamed(h: Seq<(Seq<char>, Seq<char>)>, l: Seq<(Seq<char>, Seq<char>)>)
    ensures
        forall|k: int|
            0 <= k < drop_named(h, l).len() ==> !has_name(l, #[trigger] drop_named(h, l)[k].0),
        drop_named(h, l).len() <= h.len(),
    decreases h.len(),
{
    if h.len() > 0 {
        lemma_drop_named_unnamed(h.drop_last(), l);
    }
}

proof fn lemma_drop_named_keeps_unnamed(h: Seq<(Seq<char>, Seq<char>)>, l: Seq<(Seq<char>, Seq<char>)>)
    requires
        forall|k: int| 0 <= k < h.len() ==> !has_name(l, #[trigger] h[k].0),
    ensures
        drop_named(h, l) == h,
    decreases h.len(),
{
    if h.len() > 0 {
        lemma_drop_named_keeps_unnamed(h.drop_last(), l);
        assert(h.drop_last().push(h.last()) =~= h);
    }
}

proof fn lemma_drop_named_self(l: Seq<(Seq<char>, Seq<char>)>, m: Seq<(Seq<char>, Seq<char>)>)
    requires
        forall|k: int| 0 <= k < m.len() ==> has_name(l, #[trigger] m[k].0),
    ensures
        drop_named(m, l) == Seq::<(Seq<char>, Seq<char>)>::empty(),
    decreases m.len(),
{
    if m.len() > 0 {
        lemma_drop_named_self(l, m.drop_last());
        assert(has_name(l, m[m.len() - 1].0));
    }
}

/// Setting headers keeps every header that `l` does not name, in order, and
/// no header that `l` names is left but those of `l` itself; setting the
/// same headers twice gives what setting them once gives.
pub proof fn lemma_set_headers_idempotent(h: Seq<(Seq<char>, Seq<char>)>, l: Seq<(Seq<char>, Seq<char>)>)
    ensures
        with_headers_set(with_headers_set(h, l), l) == with_headers_set(h, l),
        forall|k: int|
            0 <= k < drop_named(h, l).len() ==> !has_name(l, #[trigger] drop_named(h, l)[k].0),
{
    lemma_drop_named_unnamed(h, l);
    lemma_drop_named_add(drop_named(h, l), l, l);
    lemma_drop_named_keeps_unnamed(drop_named(h, l), l);
    assert forall|k: int| 0 <= k < l.len() implies has_name(l, #[trigger] l[k].0) by {
        assert(l[k].0 == l[k].0);
    }
    lemma_drop_named_self(l, l);
    assert(drop_named(h, l) + Seq::<(Seq<char>, Seq<char>)>::empty() =~= drop_named(h, l));
}

/// Over a secure transport the policy gives the same headers as over an
/// insecure one, followed by `Strict-Transport-Security`; over an insecure
/// transport no header is named `Strict-Transport-Security`.
pub proof fn lemma_hsts_only_when_secure(level: u8)
    ensures
        security_header_list(level, true) == security_header_list(level, false).push(
            ("Strict-Transport-Security"@, "max-age=31536000; includeSubDomains"@),
        ),
        forall|i: int|
            0 <= i < security_header_list(level, false).len() ==> #[trigger] security_header_list(
                level,
                false,
            )[i].0 != "Strict-Transport-Security"@,
{
    reveal_strlit("Strict-Transport-Security");
    reveal_strlit("X-XSS-Protection");
    reveal_strlit("Anti-Xss");
    reveal_strlit("X-Content-Type-Options");
    reveal_strlit("X-Frame-Options");
    reveal_strlit("Content-Security-Policy");
    reveal_strlit("Referrer-Policy");
    reveal_strlit("Permissions-Policy");
    reveal_strlit("Access-Control-Allow-Origin");
    let l = security_header_list(level, false);
    assert(security_header_list(level, true) =~= l.push(
        ("Strict-Transport-Security"@, "max-age=31536000; includeSubDomains"@),
    ));
    assert forall|i: int| 0 <= i < l.len() implies #[trigger] l[i].0 != "Strict-Transport-Security"@ by {
        assert(l[i].0.len() != "Strict-Transport-Security"@.len());
    }
}

/// From level 3 on, the frame, content-security, referrer and permissions
/// policies are all present, with the tiers below them.
pub proof fn lemma_level_three_policies(level: u8, is_https: bool)
    requires
        level >= 3,
    ensures
        security_header_list(level, is_https).contains(("X-XSS-Protection"@, "1; mode=block"@)),
        security_header_list(level, is_https).contains(("X-Content-Type-Options"@, "nosniff"@)),
        security_header_list(level, is_https).contains(("X-Frame-Options"@, "DENY"@)),
        security_header_list(level, is_https).contains(
            ("Content-Security-Policy"@, "default-src 'self'; script-src 'self'"@),
        ),
        security_header_list(level, is_https).contains(("Referrer-Policy"@, "no-referrer"@)),
        security_header_list(level, is_https).contains(
            ("Permissions-Policy"@, "geolocation=(), microphone=(), camera=()"@),
        ),
{
    let l = security_header_list(level, is_https);
    assert(l[0] == ("X-XSS-Protection"@, "1; mode=block"@));
    assert(l[2] == ("X-Content-Type-Options"@, "nosniff"@));
    assert(l[3] == ("X-Frame-Options"@, "DENY"@));
    assert(l[4] == ("Content-Security-Policy"@, "default-src 'self'; script-src 'self'"@));
    assert(l[5] == ("Referrer-Policy"@, "no-referrer"@));
    assert(l[6] == ("Permissions-Policy"@, "geolocation=(), microphone=(), camera=()"@));
}

} // verus!
