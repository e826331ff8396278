//! DNS resolution that bypasses the operating system's resolver.
//!
//! On macOS, `getaddrinfo()` goes through mDNSResponder; when the local
//! resolver is bad or was just changed, that daemon wedges and serialises every
//! lookup. The caller therefore resolves names itself, straight to the
//! configured nameservers, and hands the answers here: this module keeps the
//! bookkeeping — which servers to show, what name to ask for, and which answer
//! belongs to which host.
use vstd::prelude::*;

use crate::net::Ipv4;
use crate::text::{cat, chars_of, string_from_chars};

verus! {

/// Seconds a lookup may take before it counts as failed.
pub const LOOKUP_TIMEOUT_SECS: u64 = 2;

/// Tries per lookup: fail fast, no retries stacking up under a wedge.
pub const LOOKUP_ATTEMPTS: usize = 1;

/// Cached answers: none, a diagnostic wants fresh answers.
pub const LOOKUP_CACHE_SIZE: usize = 0;

/// One finished lookup: the host, its first IPv4 address (`None` when the
/// lookup failed or timed out) and how long it took.
pub struct Resolution {
    pub host: String,
    pub ip: Option<Ipv4>,
    pub ms: u128,
}

/// The name put to the nameservers for `host`: fully qualified, so no search
/// domain is tried.
pub fn query_name(host: &str) -> (q: String)
    ensures
        q@ == host@ + "."@,
{
    string_from_chars(&cat(&chars_of(host), &chars_of(".")))
}

/// The first answer for `host` in `rs`, by position, or -1.
pub open spec fn lookup_index(rs: Seq<Resolution>, host: Seq<char>, i: int) -> int
    decreases rs.len() - i,
{
    if i < 0 || i >= rs.len() {
        -1
    } else if rs[i].host@ == host {
        i
    } else {
        lookup_index(rs, host, i + 1)
    }
}

pub proof fn lemma_lookup_index(rs: Seq<Resolution>, host: Seq<char>, i: int)
    requires
        0 <= i,
    ensures
        lookup_index(rs, host, i) == -1 || (i <= lookup_index(rs, host, i) < rs.len()
            && rs[lookup_index(rs, host, i)].host@ == host),
        lookup_index(rs, host, i) == -1 ==> forall|j: int|
            i <= j < rs.len() ==> (#[trigger] rs[j]).host@ != host,
        lookup_index(rs, host, i) >= 0 ==> forall|j: int|
            i <= j < lookup_index(rs, host, i) ==> (#[trigger] rs[j]).host@ != host,
    decreases rs.len() - i,
{
    if i < rs.len() && rs[i].host@ != host {
        lemma_lookup_index(rs, host, i + 1);
    }
}

/// The address that the answers give `host`: none when no lookup of it was
/// made or the lookup failed.
pub open spec fn resolved_ip(rs: Seq<Resolution>, host: Seq<char>) -> Option<Ipv4> {
    let k = lookup_index(rs, host, 0);
    if k < 0 {
        None
    } else {
        rs[k].ip
    }
}

/// The position of the answer for `host`.
pub fn lookup(resolved: &Vec<Resolution>, host: &str) -> (r: Option<usize>)
    ensures
        match r {
            Some(k) => lookup_index(resolved@, host@, 0) == k as int && k < resolved@.len(),
            None => lookup_index(resolved@, host@, 0) == -1,
        },
{
    let h = String::from_str(host);
    let mut i: usize = 0;
    while i < resolved.len()
        invariant
            h@ == host@,
            i <= resolved.len(),
            lookup_index(resolved@, host@, 0) == lookup_index(resolved@, host@, i as int),
        decreases resolved.len() - i,
    {
        if resolved[i].host == h {
            return Some(i);
        }
        i = i + 1;
    }
    None
}

/// `s` without repeats, each element kept where it first occurs.
pub open spec fn distinct_first(s: Seq<Seq<char>>) -> Seq<Seq<char>>
    decreases s.len(),
{
    if s.len() == 0 {
        seq![]
    } else {
        let d = distinct_first(s.drop_last());
        if d.contains(s.last()) {
            d
        } else {
            d.push(s.last())
        }
    }
}

/// The views of a vector of strings.
pub open spec fn views(v: Seq<String>) -> Seq<Seq<char>> {
    v.map_values(|s: String| s@)
}

/// The nameservers the system is configured to use, de-duplicated, for
/// display: `found` lists them as the system configuration names them.
pub fn configured_servers(found: &Vec<String>) -> (r: Vec<String>)
    ensures
        views(r@) == distinct_first(views(found@)),
{
    let mut seen: Vec<String> = Vec::new();
    let mut i: usize = 0;
    while i < found.len()
        invariant
            i <= found.len(),
            views(seen@) == distinct_first(views(found@).take(i as int)),
        decreases found.len() - i,
    {
        let ghost before = views(found@).take(i as int);
        let ghost next = views(found@).take(i + 1);
        assert(next.drop_last() =~= before);
        assert(next.last() == found@[i as int]@);
        let mut present = false;
        let mut j: usize = 0;
        while j < seen.len()
            invariant
                i < found.len(),
                j <= seen.len(),
                present <==> exists|k: int| 0 <= k < j && seen@[k]@ == found@[i as int]@,
            decreases seen.len() - j,
        {
            if seen[j] == found[i] {
                present = true;
            }
            j = j + 1;
        }
        proof {
            if present {
                let k = choose|k: int| 0 <= k < j && seen@[k]@ == found@[i as int]@;
                assert(views(seen@)[k] == found@[i as int]@);
            } else {
                assert forall|k: int| 0 <= k < views(seen@).len() implies views(seen@)[k]
                    != found@[i as int]@ by {
                    assert(views(seen@)[k] == seen@[k]@);
                }
            }
        }
        if !present {
            seen.push(found[i].clone());
            assert(views(seen@) =~= distinct_first(before).push(found@[i as int]@));
        }
        i = i + 1;
    }
    assert(views(found@).take(found.len() as int) =~= views(found@));
    seen
}

proof fn lemma_contains_split(s: Seq<Seq<char>>, x: Seq<char>)
    requires
        s.len() > 0,
    ensures
        s.contains(x) <==> (s.drop_last().contains(x) || s.last() == x),
{
    if s.contains(x) {
        let k = choose|k: int| 0 <= k < s.len() && s[k] == x;
        if k < s.len() - 1 {
            assert(s.drop_last()[k] == x);
        }
    }
    if s.drop_last().contains(x) {
        let k = choose|k: int| 0 <= k < s.drop_last().len() && s.drop_last()[k] == x;
        assert(s[k] == x);
    }
    if s.last() == x {
        assert(s[s.len() - 1] == x);
    }
}

/// The de-duplicated list repeats nothing and holds exactly the servers named.
pub proof fn law_servers_distinct(s: Seq<Seq<char>>)
    ensures
        forall|i: int, j: int|
            0 <= i < j < distinct_first(s).len() ==> distinct_first(s)[i] != distinct_first(s)[j],
        forall|x: Seq<char>| distinct_first(s).contains(x) <==> s.contains(x),
    decreases s.len(),
{
    if s.len() > 0 {
        law_servers_distinct(s.drop_last());
        let d = distinct_first(s.drop_last());
        let y = s.last();
        assert forall|x: Seq<char>| distinct_first(s).contains(x) <==> s.contains(x) by {
            lemma_contains_split(s, x);
            if !d.contains(y) {
                lemma_contains_split(d.push(y), x);
                assert(d.push(y).drop_last() =~= d);
            }
        }
        if !d.contains(y) {
            assert forall|i: int, j: int|
                0 <= i < j < distinct_first(s).len() implies distinct_first(s)[i]
                != distinct_first(s)[j] by {
                if j == d.len() {
                    assert(distinct_first(s)[i] == d[i]);
                }
            }
        }
    }
}

} // verus!
