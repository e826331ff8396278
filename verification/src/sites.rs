//! Site probe definitions and the domestic / global / filtered lists.
use vstd::prelude::*;

use crate::net::Ipv4;
use crate::text::{
    chars_of, slice_chars, split_first, split_first_len, split_second, split_second_range,
};

verus! {

pub struct Probe {
    pub label: String,
    pub url: String,
    /// Whether this probe should go through the system proxy (when in proxy
    /// mode). Domestic sites are always tested on the direct route.
    pub use_proxy: bool,
    /// Pre-resolved IP for the direct route, filled in before probing so the
    /// HTTP client never has to call the OS resolver.
    pub ip: Option<Ipv4>,
}

/// The hostname portion of a URL: everything between `://` and the next `/`
/// (the whole URL when it has no `://`).
pub open spec fn url_host(url: Seq<char>) -> Seq<char> {
    let after_scheme = match split_second(url, "://"@) {
        Some(rest) => rest,
        None => url,
    };
    split_first(after_scheme, seq!['/'])
}

impl Probe {
    fn new(label: &str, url: &str, use_proxy: bool) -> (p: Probe)
        ensures
            p.label@ == label@,
            p.url@ == url@,
            p.use_proxy == use_proxy,
            p.ip is None,
    {
        Probe {
            label: String::from_str(label),
            url: String::from_str(url),
            use_proxy,
            ip: None,
        }
    }

    /// The hostname portion of the URL (everything between `://` and the next `/`).
    pub fn host(&self) -> (h: &str)
        ensures
            h@ == url_host(self.url@),
    {
        let u = chars_of(self.url.as_str());
        let (a, b) = match split_second_range(&u, &chars_of("://")) {
            Some((a, b)) => (a, b),
            None => {
                assert(u@.subrange(0, u.len() as int) =~= u@);
                (0, u.len())
            },
        };
        let rest = slice_chars(&u, a, b);
        let slash = vec!['/'];
        assert(slash@ =~= seq!['/']);
        let n = split_first_len(&rest, &slash);
        assert(u@.subrange(a as int, b as int).take(n as int) =~= u@.subrange(
            a as int,
            a + n,
        ));
        self.url.as_str().substring_char(a, a + n)
    }
}

pub struct Probes {
    pub domestic: Vec<Probe>,
    pub global: Vec<Probe>,
    pub filtered: Vec<Probe>,
}

/// Every probe: domestic, then global, then filtered.
pub open spec fn all_probes(p: Probes) -> Seq<Probe> {
    p.domestic@ + p.global@ + p.filtered@
}

impl Probes {
    /// Every probe, in the order domestic, global, filtered.
    pub fn all(&self) -> (r: Vec<&Probe>)
        ensures
            r@.len() == all_probes(*self).len(),
            forall|i: int| 0 <= i < r@.len() ==> *#[trigger] r@[i] == all_probes(*self)[i],
    {
        let mut r: Vec<&Probe> = Vec::new();
        let ghost whole = all_probes(*self);
        let mut i: usize = 0;
        while i < self.domestic.len()
            invariant
                whole == all_probes(*self),
                i <= self.domestic.len(),
                r@.len() == i,
                forall|k: int| 0 <= k < r@.len() ==> *#[trigger] r@[k] == whole[k],
            decreases self.domestic.len() - i,
        {
            r.push(&self.domestic[i]);
            i = i + 1;
        }
        let d = self.domestic.len();
        let mut i: usize = 0;
        while i < self.global.len()
            invariant
                whole == all_probes(*self),
                d == self.domestic.len(),
                i <= self.global.len(),
                r@.len() == d + i,
                forall|k: int| 0 <= k < r@.len() ==> *#[trigger] r@[k] == whole[k],
            decreases self.global.len() - i,
        {
            r.push(&self.global[i]);
            i = i + 1;
        }
        let g = self.global.len();
        let mut i: usize = 0;
        while i < self.filtered.len()
            invariant
                whole == all_probes(*self),
                d == self.domestic.len(),
                g == self.global.len(),
                i <= self.filtered.len(),
                r@.len() == d + g + i,
                forall|k: int| 0 <= k < r@.len() ==> *#[trigger] r@[k] == whole[k],
            decreases self.filtered.len() - i,
        {
            r.push(&self.filtered[i]);
            i = i + 1;
        }
        r
    }
}

/// Hosts shown explicitly in the DNS Resolution section.
pub open spec fn dns_host_list() -> Seq<Seq<char>> {
    seq!["digikala.com"@, "motamem.org"@, "www.google.com"@, "soft98.ir"@]
}

/// The hosts of the DNS Resolution section, in order.
pub fn dns_hosts() -> (v: Vec<String>)
    ensures
        v@.len() == dns_host_list().len(),
        forall|i: int| 0 <= i < v@.len() ==> #[trigger] v@[i]@ == dns_host_list()[i],
{
    let mut v: Vec<String> = Vec::new();
    v.push(String::from_str("digikala.com"));
    v.push(String::from_str("motamem.org"));
    v.push(String::from_str("www.google.com"));
    v.push(String::from_str("soft98.ir"));
    v
}

/// `(label, url)` of the domestic sites.
pub open spec fn domestic_sites() -> Seq<(Seq<char>, Seq<char>)> {
    seq![
        ("digikala.com"@, "https://digikala.com"@),
        ("iranketab.ir"@, "https://www.iranketab.ir"@),
        ("soft98.ir"@, "https://soft98.ir"@),
        ("varzesh3.com"@, "https://www.varzesh3.com"@),
    ]
}

/// `(label, url)` of the global sites.
pub open spec fn global_sites() -> Seq<(Seq<char>, Seq<char>)> {
    seq![
        ("Wikipedia"@, "https://www.wikipedia.org"@),
        ("Substack"@, "https://substack.com"@),
        ("Apple"@, "https://www.apple.com"@),
        ("Google"@, "https://www.google.com"@),
        ("Motamem (motamem.org)"@, "https://motamem.org"@),
    ]
}

/// `(label, url)` of the filtered sites.
pub open spec fn filtered_sites() -> Seq<(Seq<char>, Seq<char>)> {
    seq![
        ("YouTube"@, "https://www.youtube.com"@),
        ("Telegram"@, "https://t.me"@),
        ("Instagram"@, "https://www.instagram.com"@),
        ("Twitter / X"@, "https://x.com"@),
        ("Facebook"@, "https://www.facebook.com"@),
    ]
}

/// `list` holds the sites of `sites`, in order, unresolved, each routed
/// through the proxy exactly when `use_proxy`.
pub open spec fn list_is(list: Seq<Probe>, sites: Seq<(Seq<char>, Seq<char>)>, use_proxy: bool) -> bool {
    &&& list.len() == sites.len()
    &&& forall|i: int|
        0 <= i < list.len() ==> {
            &&& (#[trigger] list[i]).label@ == sites[i].0
            &&& list[i].url@ == sites[i].1
            &&& list[i].use_proxy == use_proxy
            &&& list[i].ip is None
        }
}

/// Build the probe lists for the selected mode. In proxy mode, global/filtered
/// sites route through the proxy; domestic sites always go direct.
pub fn build(proxy_mode: bool) -> (r: Probes)
    ensures
        list_is(r.domestic@, domestic_sites(), false),
        list_is(r.global@, global_sites(), proxy_mode),
        list_is(r.filtered@, filtered_sites(), proxy_mode),
{
    let p = proxy_mode;
    let mut domestic: Vec<Probe> = Vec::new();
    domestic.push(Probe::new("digikala.com", "https://digikala.com", false));
    domestic.push(Probe::new("iranketab.ir", "https://www.iranketab.ir", false));
    domestic.push(Probe::new("soft98.ir", "https://soft98.ir", false));
    domestic.push(Probe::new("varzesh3.com", "https://www.varzesh3.com", false));
    let mut global: Vec<Probe> = Vec::new();
    global.push(Probe::new("Wikipedia", "https://www.wikipedia.org", p));
    global.push(Probe::new("Substack", "https://substack.com", p));
    global.push(Probe::new("Apple", "https://www.apple.com", p));
    global.push(Probe::new("Google", "https://www.google.com", p));
    global.push(Probe::new("Motamem (motamem.org)", "https://motamem.org", p));
    let mut filtered: Vec<Probe> = Vec::new();
    filtered.push(Probe::new("YouTube", "https://www.youtube.com", p));
    filtered.push(Probe::new("Telegram", "https://t.me", p));
    filtered.push(Probe::new("Instagram", "https://www.instagram.com", p));
    filtered.push(Probe::new("Twitter / X", "https://x.com", p));
    filtered.push(Probe::new("Facebook", "https://www.facebook.com", p));
    Probes { domestic, global, filtered }
}

/// Domestic sites are tested on the direct route in either mode; global and
/// filtered sites go through the proxy exactly in proxy mode.
pub proof fn law_domestic_always_direct(r: Probes, proxy_mode: bool)
    requires
        list_is(r.domestic@, domestic_sites(), false),
        list_is(r.global@, global_sites(), proxy_mode),
        list_is(r.filtered@, filtered_sites(), proxy_mode),
    ensures
        forall|i: int| 0 <= i < r.domestic@.len() ==> !(#[trigger] r.domestic@[i]).use_proxy,
        forall|i: int|
            r.domestic@.len() <= i < all_probes(r).len() ==> (#[trigger] all_probes(r)[i]).use_proxy
                == proxy_mode,
{
    assert forall|i: int|
        r.domestic@.len() <= i < all_probes(r).len() implies (#[trigger] all_probes(
        r,
    )[i]).use_proxy == proxy_mode by {
        if i < r.domestic@.len() + r.global@.len() {
            assert(all_probes(r)[i] == r.global@[i - r.domestic@.len()]);
        } else {
            assert(all_probes(r)[i] == r.filtered@[i - r.domestic@.len() - r.global@.len()]);
        }
    }
}

} // verus!
