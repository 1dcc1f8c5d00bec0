//! Fixed-window rate limiting per client address.
use dashmap::DashMap;
use vstd::prelude::*;
use crate::text::{decimal, push_decimal};

verus! {

#[verifier::external_type_specification]
#[verifier::external_body]
#[verifier::reject_recursive_types(K)]
#[verifier::reject_recursive_types(V)]
#[verifier::reject_recursive_types(S)]
pub struct ExDashMap<K, V, S>(DashMap<K, V, S>);

/// Requests admitted per client within one window.
pub const MAX_REQUESTS: u32 = 10;

/// Length of one window, in nanoseconds (ten seconds).
pub const WINDOW_NANOS: u64 = 10_000_000_000;

/// A client's counter: requests seen in the current window, and when it began.
pub type Counter = (u32, u64);

/// What a counter map holds: for each client address, its counter.
pub uninterp spec fn counters_of(m: DashMap<String, Counter>) -> Map<Seq<char>, Counter>;

/// Relies on `DashMap::new`: a new map is empty.
#[verifier::external_body]
fn counters_new() -> (r: DashMap<String, Counter>)
    ensures
        counters_of(r).dom() =~= Set::<Seq<char>>::empty(),
{
    DashMap::new()
}

/// Relies on `DashMap::get`: the value stored under `key`, if any.
#[verifier::external_body]
fn counters_get(m: &DashMap<String, Counter>, key: &String) -> (r: Option<Counter>)
    ensures
        r == entry_of(counters_of(*m), key@),
{
    m.get(key).map(|e| *e.value())
}

/// Relies on `DashMap::insert`: `key` maps to `value` afterwards, other keys keep theirs.
#[verifier::external_body]
fn counters_insert(m: &mut DashMap<String, Counter>, key: String, value: Counter)
    ensures
        counters_of(*final(m)) == counters_of(*old(m)).insert(key@, value),
{
    m.insert(key, value);
}

/// Relies on `DashMap::iter`: every entry once, each with its key and count, in no set order.
#[verifier::external_body]
fn counters_snapshot(m: &DashMap<String, Counter>) -> (r: Vec<(String, u32)>)
    ensures
        lists_counters(r@, counters_of(*m)),
{
    m.iter().map(|e| (e.key().clone(), e.value().0)).collect()
}

/// The value under `k` in `m`, if any.
pub open spec fn entry_of(m: Map<Seq<char>, Counter>, k: Seq<char>) -> Option<Counter> {
    if m.contains_key(k) {
        Some(m[k])
    } else {
        None
    }
}

/// Time from `start` to `now`, or zero if `now` is earlier.
pub open spec fn elapsed(start: u64, now: u64) -> u64 {
    if now >= start {
        (now - start) as u64
    } else {
        0
    }
}

/// A count raised by one, held at the largest `u32`.
pub open spec fn bump(c: u32) -> u32 {
    if c < u32::MAX {
        (c + 1) as u32
    } else {
        c
    }
}

/// One request at `now` against a client's counter: the new counter, and
/// whether the request is admitted. A missing counter or one whose window has
/// run out starts afresh at one; otherwise the count grows and the request is
/// admitted while it stays within the limit.
pub open spec fn rate_step(entry: Option<Counter>, now: u64) -> (Counter, bool) {
    match entry {
        None => ((1, now), true),
        Some(c) => if elapsed(c.1, now) > WINDOW_NANOS {
            ((1, now), true)
        } else {
            ((bump(c.0), c.1), bump(c.0) <= MAX_REQUESTS)
        },
    }
}

/// `entries` lists the map `m`: each address once, with its count.
pub open spec fn lists_counters(entries: Seq<(String, u32)>, m: Map<Seq<char>, Counter>) -> bool {
    &&& forall|i: int, j: int|
        0 <= i < j < entries.len() ==> #[trigger] entries[i].0@ != #[trigger] entries[j].0@
    &&& forall|i: int|
        0 <= i < entries.len() ==> m.contains_key(#[trigger] entries[i].0@) && entries[i].1
            == m[entries[i].0@].0
    &&& forall|k: Seq<char>|
        #[trigger] m.contains_key(k) ==> exists|i: int| 0 <= i < entries.len() && entries[i].0@ == k
}

/// The per-client request counters, shared by every request.
pub struct RateLimiter {
    counters: DashMap<String, Counter>,
}

impl View for RateLimiter {
    type V = Map<Seq<char>, Counter>;

    closed spec fn view(&self) -> Map<Seq<char>, Counter> {
        counters_of(self.counters)
    }
}

impl RateLimiter {
    /// A limiter that has seen no client.
    pub fn new() -> (r: Self)
        ensures
            r@.dom() =~= Set::<Seq<char>>::empty(),
    {
        RateLimiter { counters: counters_new() }
    }
}

/// Counts one request from `remote` at time `now` (nanoseconds on a monotonic
/// clock) and says whether it is admitted.
pub fn check_rate_limit(limiter: &mut RateLimiter, remote: &String, now: u64) -> (r: bool)
    ensures
        final(limiter)@ == old(limiter)@.insert(
            remote@,
            rate_step(entry_of(old(limiter)@, remote@), now).0,
        ),
        r == rate_step(entry_of(old(limiter)@, remote@), now).1,
{
    let (count, start) = match counters_get(&limiter.counters, remote) {
        None => (0u32, now),
        Some(c) => c,
    };
    let since: u64 = if now >= start { now - start } else { 0 };
    let (next, admitted) = if since > WINDOW_NANOS {
        ((1u32, now), true)
    } else {
        let c: u32 = if count < u32::MAX { count + 1 } else { count };
        ((c, start), c <= MAX_REQUESTS)
    };
    counters_insert(&mut limiter.counters, remote.clone(), next);
    admitted
}

/// One line of the metrics text.
pub open spec fn metrics_line(addr: Seq<char>, count: u32) -> Seq<char> {
    addr + ": "@ + decimal(count as nat) + " requests\n"@
}

/// The metrics text for `entries`, one line each, in order.
pub open spec fn metrics_text(entries: Seq<(String, u32)>) -> Seq<char>
    decreases entries.len(),
{
    if entries.len() == 0 {
        seq![]
    } else {
        metrics_text(entries.drop_last()) + metrics_line(
            entries.last().0@,
            entries.last().1,
        )
    }
}

/// Writes one line `<address>: <count> requests` per entry.
pub fn render_metrics(entries: &Vec<(String, u32)>) -> (r: String)
    ensures
        r@ == metrics_text(entries@),
{
    let mut out = String::new();
    let mut i: usize = 0;
    while i < entries.len()
        invariant
            i <= entries@.len(),
            out@ == metrics_text(entries@.take(i as int)),
        decreases entries@.len() - i,
    {
        let addr = &entries[i].0;
        out.append(addr.as_str());
        out.append(": ");
        push_decimal(&mut out, entries[i].1);
        out.append(" requests\n");
        assert(entries@.take(i + 1).drop_last() =~= entries@.take(i as int));
        i = i + 1;
    }
    assert(entries@.take(i as int) =~= entries@);
    out
}

/// A point-in-time text listing each known client address with its count,
/// in no particular order.
pub fn metrics(limiter: &RateLimiter) -> (r: String)
    ensures
        exists|entries: Seq<(String, u32)>|
            lists_counters(entries, limiter@) && r@ == metrics_text(entries),
{
    let entries = counters_snapshot(&limiter.counters);
    render_metrics(&entries)
}

/// The counter left by a run of requests at `times`, starting from `entry`.
pub open spec fn replay(entry: Option<Counter>, times: Seq<u64>) -> Option<Counter>
    decreases times.len(),
{
    if times.len() == 0 {
        entry
    } else {
        Some(rate_step(replay(entry, times.drop_last()), times.last()).0)
    }
}

/// Whether the request at `times[i]` is admitted, in a run starting from `entry`.
pub open spec fn admitted(entry: Option<Counter>, times: Seq<u64>, i: int) -> bool {
    rate_step(replay(entry, times.take(i)), times[i]).1
}

/// The request times are in order and all fall within one window of the first.
pub open spec fn within_one_window(times: Seq<u64>) -> bool {
    &&& times.len() > 0
    &&& forall|i: int, j: int| 0 <= i <= j < times.len() ==> times[i] <= times[j]
    &&& times.last() - times[0] <= WINDOW_NANOS
}

proof fn lemma_prefix_count(times: Seq<u64>, n: int)
    requires
        within_one_window(times),
        1 <= n <= times.len(),
        times.len() < u32::MAX,
    ensures
        replay(None, times.take(n)) == Some((n as u32, times[0])),
    decreases n,
{
    assert(times.take(n).drop_last() =~= times.take(n - 1));
    if n == 1 {
        assert(times.take(0) =~= Seq::<u64>::empty());
    } else {
        lemma_prefix_count(times, n - 1);
        assert(times[n - 1] <= times.last());
        assert(times[0] <= times[n - 1]);
    }
}

/// A client's requests within one window: the first ten are admitted, every
/// later one is rejected, and the counter holds the number of requests made,
/// admitted or not.
pub proof fn lemma_window_admits_first_ten(times: Seq<u64>)
    requires
        within_one_window(times),
        times.len() < u32::MAX,
    ensures
        replay(None, times) == Some((times.len() as u32, times[0])),
        forall|i: int| 0 <= i < times.len() ==> admitted(None, times, i) == (i < MAX_REQUESTS),
{
    lemma_prefix_count(times, times.len() as int);
    assert(times.take(times.len() as int) =~= times);
    assert forall|i: int| 0 <= i < times.len() implies admitted(None, times, i) == (i
        < MAX_REQUESTS) by {
        if i == 0 {
            assert(times.take(0) =~= Seq::<u64>::empty());
        } else {
            lemma_prefix_count(times, i);
            assert(times[0] <= times[i] && times[i] <= times.last());
        }
    }
}

/// Once a client's window has run out, its next request starts a new count
/// at one and is admitted.
pub proof fn lemma_window_resets(c: Counter, now: u64)
    requires
        elapsed(c.1, now) > WINDOW_NANOS,
    ensures
        rate_step(Some(c), now) == ((1u32, now), true),
{
}

proof fn lemma_metrics_text_split(entries: Seq<(String, u32)>, n: int)
    requires
        0 <= n <= entries.len(),
    ensures
        metrics_text(entries) == metrics_text(entries.take(n)) + metrics_text(entries.skip(n)),
    decreases entries.len(),
{
    if n == entries.len() {
        assert(entries.take(n) =~= entries);
        assert(entries.skip(n) =~= Seq::<(String, u32)>::empty());
        assert(metrics_text(entries) + seq![] =~= metrics_text(entries));
    } else {
        let d = entries.drop_last();
        lemma_metrics_text_split(d, n);
        assert(d.take(n) =~= entries.take(n));
        assert(entries.skip(n).drop_last() =~= d.skip(n));
        assert(entries.skip(n).last() == entries.last());
        let line = metrics_line(entries.last().0@, entries.last().1);
        assert(metrics_text(entries.skip(n)) == metrics_text(d.skip(n)) + line);
        assert(metrics_text(d.take(n)) + metrics_text(d.skip(n)) + line =~= metrics_text(
            d.take(n),
        ) + (metrics_text(d.skip(n)) + line));
    }
}

/// The metrics text holds a line for every client that has made a request,
/// with that client's current count.
pub proof fn lemma_metrics_lists_every_client(
    entries: Seq<(String, u32)>,
    m: Map<Seq<char>, Counter>,
    k: Seq<char>,
)
    requires
        lists_counters(entries, m),
        m.contains_key(k),
    ensures
        exists|pre: Seq<char>, post: Seq<char>|
            metrics_text(entries) == pre + metrics_line(k, m[k].0) + post,
{
    let i = choose|i: int| 0 <= i < entries.len() && entries[i].0@ == k;
    lemma_metrics_text_split(entries, i + 1);
    let t = entries.take(i + 1);
    assert(t.drop_last() =~= entries.take(i));
    assert(t.last() == entries[i]);
    let pre = metrics_text(entries.take(i));
    let post = metrics_text(entries.skip(i + 1));
    assert(metrics_text(entries) == pre + metrics_line(k, m[k].0) + post);
}

} // verus!
