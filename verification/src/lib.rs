//! netchecker — cross-platform internet reachability checker.
//!
//! Probes local infrastructure (interface, gateway, raw IP routing), DNS
//! resolution, and a set of domestic / global / filtered websites in parallel,
//! and reports PASS/FAIL/INFO. Direct mode tests the raw ISP connection; proxy
//! mode routes global/filtered sites through the system proxy.
//!
//! This library holds the decisions: which mode to run in, what to probe and
//! how, how to read the tools' output, and what each result says. The program
//! around it performs the network and system calls and prints.
use vstd::prelude::*;

pub mod dns;
pub mod net;
pub mod probe;
pub mod proxy;
pub mod reach;
pub mod sites;
pub mod sysinfo;
pub mod text;
pub mod ui;
pub mod wifi;

use crate::dns::{lemma_lookup_index, lookup, lookup_index, resolved_ip, views, Resolution};
use crate::net::{ipv4_text, Ipv4};
use crate::probe::{planned, status_is, via_proxy, SitePlan};
use crate::reach::ReachResult;
use crate::sites::{all_probes, dns_host_list, dns_hosts, url_host, Probe, Probes};
use crate::sysinfo::SysInfo;
use crate::text::{cat, chars_of, oview_str, oview_string, string_from_chars, with_ms, with_ms_chars};
use crate::ui::{Status, CYAN, RED, RESET, YELLOW};

verus! {

/// How global and filtered sites are reached.
#[derive(Clone, Copy, PartialEq, Eq, Structural, Debug)]
pub enum Mode {
    /// Bypass proxies and test the raw ISP connection.
    Direct,
    /// Route global/filtered sites through the system proxy.
    Proxy,
}

pub open spec fn mode_label(m: Mode) -> Seq<char> {
    match m {
        Mode::Direct => "DIRECT"@,
        Mode::Proxy => "PROXY"@,
    }
}

impl Mode {
    pub fn label(self) -> (l: &'static str)
        ensures
            l@ == mode_label(self),
    {
        match self {
            Mode::Direct => "DIRECT",
            Mode::Proxy => "PROXY",
        }
    }
}

/// The command line.
pub struct Cli {
    /// Mode: "direct" (raw ISP) or "proxy" (via system proxy).
    /// Omitted: proxy if one is configured, otherwise direct.
    pub mode: Option<String>,
    /// Force direct mode.
    pub direct: bool,
    /// Force proxy mode.
    pub proxy: bool,
}

/// The mode argument is one of the two spellings.
pub open spec fn mode_arg_is(m: Option<String>, long: Seq<char>, short: Seq<char>) -> bool {
    m matches Some(s) && (s@ == long || s@ == short)
}

/// Explicit flags or argument win (direct before proxy); otherwise proxy
/// exactly when a system proxy is configured.
pub open spec fn chosen_mode(cli: Cli, proxy_detected: bool) -> Mode {
    if cli.direct || mode_arg_is(cli.mode, "direct"@, "d"@) {
        Mode::Direct
    } else if cli.proxy || mode_arg_is(cli.mode, "proxy"@, "p"@) {
        Mode::Proxy
    } else if proxy_detected {
        Mode::Proxy
    } else {
        Mode::Direct
    }
}

fn arg_is(m: &Option<String>, long: &str, short: &str) -> (r: bool)
    ensures
        r == mode_arg_is(*m, long@, short@),
{
    match m {
        Some(s) => *s == String::from_str(long) || *s == String::from_str(short),
        None => false,
    }
}

/// Decide the mode. Explicit flags/arg win; otherwise auto-select based on
/// whether a system proxy is configured — no interactive prompt.
pub fn choose_mode(cli: &Cli, proxy_detected: bool) -> (m: Mode)
    ensures
        m == chosen_mode(*cli, proxy_detected),
        cli.direct || (cli.mode matches Some(a) && (a@ == "direct"@ || a@ == "d"@)) ==> m == Mode::Direct,
        !cli.direct && !(cli.mode matches Some(a) && (a@ == "direct"@ || a@ == "d"@)) && (cli.proxy || (cli.mode matches Some(a) && (a@ == "proxy"@ || a@ == "p"@))) ==> m
            == Mode::Proxy,
        !cli.direct && !cli.proxy && !(cli.mode matches Some(a) && (a@ == "direct"@ || a@ == "d"@)) && !(cli.mode matches Some(a) && (a@ == "proxy"@ || a@ == "p"@))
            ==> (m == Mode::Proxy <==> proxy_detected),
{
    proof {
        law_explicit_choice_wins(*cli, proxy_detected);
    }
    if cli.direct || arg_is(&cli.mode, "direct", "d") {
        return Mode::Direct;
    }
    if cli.proxy || arg_is(&cli.mode, "proxy", "p") {
        return Mode::Proxy;
    }
    if proxy_detected {
        Mode::Proxy
    } else {
        Mode::Direct
    }
}

/// The proxy in use: the detected one in proxy mode, none in direct mode.
pub fn route_proxy(mode: Mode, detected: Option<String>) -> (p: Option<String>)
    ensures
        mode == Mode::Proxy ==> p == detected,
        mode == Mode::Direct ==> p is None,
{
    match mode {
        Mode::Proxy => detected,
        Mode::Direct => None,
    }
}

/// With neither flag nor argument, the mode follows the proxy detection.
pub proof fn law_auto_mode_follows_detection(cli: Cli, proxy_detected: bool)
    requires
        !cli.direct,
        !cli.proxy,
        cli.mode is None,
    ensures
        chosen_mode(cli, proxy_detected) == (if proxy_detected {
            Mode::Proxy
        } else {
            Mode::Direct
        }),
{
}

/// An explicit choice overrides detection; `--direct` (or "direct"/"d")
/// beats `--proxy` (or "proxy"/"p"); with neither, proxy mode exactly when a
/// system proxy was detected.
pub proof fn law_explicit_choice_wins(cli: Cli, proxy_detected: bool)
    ensures
        cli.direct || (cli.mode matches Some(a) && (a@ == "direct"@ || a@ == "d"@)) ==> chosen_mode(cli, proxy_detected) == Mode::Direct,
        !cli.direct && !(cli.mode matches Some(a) && (a@ == "direct"@ || a@ == "d"@)) && (cli.proxy || (cli.mode matches Some(a) && (a@ == "proxy"@ || a@ == "p"@))) ==> chosen_mode(cli, proxy_detected)
            == Mode::Proxy,
        !cli.direct && !cli.proxy && !(cli.mode matches Some(a) && (a@ == "direct"@ || a@ == "d"@)) && !(cli.mode matches Some(a) && (a@ == "proxy"@ || a@ == "p"@))
            ==> (chosen_mode(cli, proxy_detected) == Mode::Proxy <==> proxy_detected),
{
}

// ---------------------------------------------------------------------------
// Infrastructure section
// ---------------------------------------------------------------------------

/// The ports raced against the gateway.
pub fn gateway_ports() -> (v: Vec<u16>)
    ensures
        v@ == seq![80u16, 443, 53],
{
    let v = vec![80u16, 443, 53];
    assert(v@ =~= seq![80u16, 443, 53]);
    v
}

/// The port tried on the raw global address.
pub fn raw_ip_ports() -> (v: Vec<u16>)
    ensures
        v@ == seq![443u16],
{
    let v = vec![443u16];
    assert(v@ =~= seq![443u16]);
    v
}

/// The raw global address whose reachability means "internet up": 1.1.1.1.
pub fn raw_ip() -> (ip: Ipv4)
    ensures
        ip == (Ipv4 { a: 1, b: 1, c: 1, d: 1 }),
{
    Ipv4::new(1, 1, 1, 1)
}

/// `" (<ip>)"` when the local address is known.
pub open spec fn local_ip_part(ip: Option<Ipv4>) -> Seq<char> {
    match ip {
        Some(a) => " ("@ + ipv4_text(a) + ")"@,
        None => seq![],
    }
}

/// The SSID part of the interface line; an unreadable SSID is reported as
/// such, never as a failure.
pub open spec fn ssid_part(ssid: Option<Seq<char>>) -> Seq<char> {
    match ssid {
        Some(s) => " — Wi-Fi SSID: "@ + s,
        None => " — SSID unavailable or wired"@,
    }
}

/// The interface result: `(ok, detail)`.
pub open spec fn interface_verdict(info: SysInfo, ssid: Option<Seq<char>>) -> (bool, Seq<char>) {
    match info.interface {
        None => (false, "No active network interface"@),
        Some(i) => (true, "Active on "@ + i@ + local_ip_part(info.local_ip) + ssid_part(ssid)),
    }
}


/// The "Local Network Interface" result. `ssid` is what the Wi-Fi query gave
/// for the active interface.
pub fn interface_status(info: &SysInfo, ssid: Option<String>) -> (s: Status)
    ensures
        status_is(
            s,
            "Local Network Interface"@,
            interface_verdict(*info, oview_string(ssid)).0,
            interface_verdict(*info, oview_string(ssid)).1,
        ),
        s.ok <==> info.interface is Some,
        info.interface is Some && ssid is None ==> s.detail@.subrange(
            s.detail@.len() - " — SSID unavailable or wired"@.len(),
            s.detail@.len() as int,
        ) == " — SSID unavailable or wired"@,
{
    proof {
        law_unreadable_ssid_is_not_a_failure(*info);
    }
    let name = String::from_str("Local Network Interface");
    match &info.interface {
        None => Status::new(name, false, String::from_str("No active network interface")),
        Some(iface) => {
            let head = cat(&chars_of("Active on "), &chars_of(iface.as_str()));
            let d = match info.local_ip {
                Some(ip) => {
                    let t = ip.text_chars();
                    let d = cat(&cat(&cat(&head, &chars_of(" (")), &t), &chars_of(")"));
                    assert(d@ =~= head@ + local_ip_part(info.local_ip));
                    d
                },
                None => {
                    assert(head@ + local_ip_part(info.local_ip) =~= head@);
                    head
                },
            };
            let d2 = match &ssid {
                Some(s) => {
                    let r = cat(&cat(&d, &chars_of(" — Wi-Fi SSID: ")), &chars_of(s.as_str()));
                    assert(r@ =~= d@ + ssid_part(oview_string(ssid)));
                    r
                },
                None => cat(&d, &chars_of(" — SSID unavailable or wired")),
            };
            Status::new(name, true, string_from_chars(&d2))
        },
    }
}

/// An SSID that cannot be read is reported as such; the interface result
/// fails only when there is no active interface.
pub proof fn law_unreadable_ssid_is_not_a_failure(info: SysInfo)
    ensures
        interface_verdict(info, None).0 <==> info.interface is Some,
        info.interface is Some ==> interface_verdict(info, None).1.subrange(
            interface_verdict(info, None).1.len() - " — SSID unavailable or wired"@.len(),
            interface_verdict(info, None).1.len() as int,
        ) == " — SSID unavailable or wired"@,
{
    if let Some(i) = info.interface {
        let head = "Active on "@ + i@ + local_ip_part(info.local_ip);
        let tail = " — SSID unavailable or wired"@;
        assert((head + tail).subrange(head.len() as int, (head + tail).len() as int) =~= tail);
    }
}

/// The gateway result: the reach verdict on the gateway `gw`.
pub fn gateway_status(gw: Ipv4, r: &ReachResult) -> (s: Status)
    ensures
        status_is(
            s,
            "Ping Default Gateway ("@ + ipv4_text(gw) + ")"@,
            r.ok,
            with_ms(r.detail@, r.ms),
        ),
{
    let name = cat(&cat(&chars_of("Ping Default Gateway ("), &gw.text_chars()), &chars_of(")"));
    let detail = with_ms_chars(&chars_of(r.detail.as_str()), r.ms);
    Status::new(string_from_chars(&name), r.ok, string_from_chars(&detail))
}

/// Without a gateway there is no LAN first hop to ping — normal for a
/// point-to-point tunnel (VPN) egress, so an INFO result, not a failure.
pub fn no_gateway_status() -> (s: Status)
    ensures
        s.name@ == "Default Gateway"@,
        s.ok,
        s.info,
        s.detail@ == "No LAN gateway (point-to-point/tunnel egress) — see raw IP check below"@,
{
    Status::info(
        String::from_str("Default Gateway"),
        String::from_str("No LAN gateway (point-to-point/tunnel egress) — see raw IP check below"),
    )
}

/// The raw global IP result.
pub open spec fn raw_ip_detail(r: ReachResult) -> Seq<char> {
    with_ms(
        if r.ok {
            "Global IP routing up"@
        } else {
            "Global IP unreachable or timed out"@
        },
        r.ms,
    )
}

/// The "Ping Raw Global IP (1.1.1.1)" result; it passes exactly when the raw
/// address was reached, which is what "internet up" means to the site probes.
pub fn raw_ip_status(r: &ReachResult) -> (s: Status)
    ensures
        status_is(s, "Ping Raw Global IP (1.1.1.1)"@, r.ok, raw_ip_detail(*r)),
{
    let msg = if r.ok {
        chars_of("Global IP routing up")
    } else {
        chars_of("Global IP unreachable or timed out")
    };
    Status::new(
        String::from_str("Ping Raw Global IP (1.1.1.1)"),
        r.ok,
        string_from_chars(&with_ms_chars(&msg, r.ms)),
    )
}

// ---------------------------------------------------------------------------
// DNS section
// ---------------------------------------------------------------------------

/// The DNS result for `host`: `(ok, detail)`.
pub open spec fn dns_verdict(rs: Seq<Resolution>, host: Seq<char>) -> (bool, Seq<char>) {
    let k = lookup_index(rs, host, 0);
    if k < 0 {
        (false, "Not resolved"@)
    } else {
        match rs[k].ip {
            Some(ip) => (true, with_ms("Resolved to "@ + ipv4_text(ip), rs[k].ms)),
            None => (false, with_ms("Resolution failed or timed out"@, rs[k].ms)),
        }
    }
}

/// The DNS Resolution result for `host`.
pub fn dns_status(host: &str, resolved: &Vec<Resolution>) -> (s: Status)
    ensures
        status_is(s, host@, dns_verdict(resolved@, host@).0, dns_verdict(resolved@, host@).1),
        s.ok <==> exists|k: int|
            0 <= k < resolved@.len() && (#[trigger] resolved@[k]).host@ == host@
                && resolved@[k].ip is Some && forall|j: int|
                0 <= j < k ==> (#[trigger] resolved@[j]).host@ != host@,
        (forall|k: int| 0 <= k < resolved@.len() ==> (#[trigger] resolved@[k]).host@ != host@)
            ==> s.detail@ == "Not resolved"@,
{
    proof {
        lemma_lookup_index(resolved@, host@, 0);
        let k = lookup_index(resolved@, host@, 0);
        if k >= 0 && resolved@[k].ip is Some {
            assert(0 <= k < resolved@.len() && resolved@[k].host@ == host@
                && resolved@[k].ip is Some && forall|j: int|
                0 <= j < k ==> (#[trigger] resolved@[j]).host@ != host@);
        }
        if exists|k2: int|
            0 <= k2 < resolved@.len() && (#[trigger] resolved@[k2]).host@ == host@
                && resolved@[k2].ip is Some && forall|j: int|
                0 <= j < k2 ==> (#[trigger] resolved@[j]).host@ != host@ {
            let k2 = choose|k2: int|
                0 <= k2 < resolved@.len() && (#[trigger] resolved@[k2]).host@ == host@
                    && resolved@[k2].ip is Some && forall|j: int|
                    0 <= j < k2 ==> (#[trigger] resolved@[j]).host@ != host@;
            if k != k2 {
                if k < k2 && k >= 0 {
                    assert(resolved@[k].host@ != host@);
                }
            }
        }
    }
    let name = String::from_str(host);
    match lookup(resolved, host) {
        None => Status::new(name, false, String::from_str("Not resolved")),
        Some(k) => {
            let r = &resolved[k];
            match r.ip {
                Some(ip) => Status::new(
                    name,
                    true,
                    string_from_chars(
                        &with_ms_chars(&cat(&chars_of("Resolved to "), &ip.text_chars()), r.ms),
                    ),
                ),
                None => Status::new(
                    name,
                    false,
                    string_from_chars(
                        &with_ms_chars(&chars_of("Resolution failed or timed out"), r.ms),
                    ),
                ),
            }
        },
    }
}

// ---------------------------------------------------------------------------
// What to resolve, and pinning the answers
// ---------------------------------------------------------------------------

/// The probe takes the direct route (the proxy resolves names on its own).
pub open spec fn direct_route(p: Probe, proxy_active: bool) -> bool {
    !(p.use_proxy && proxy_active)
}

/// `h` must be resolved: it is the host of a direct-route probe, or one of
/// the hosts the DNS Resolution section shows.
pub open spec fn wanted_host(probes: Probes, proxy_active: bool, h: Seq<char>) -> bool {
    ||| exists|i: int|
        0 <= i < all_probes(probes).len() && direct_route(
            #[trigger] all_probes(probes)[i],
            proxy_active,
        ) && url_host(all_probes(probes)[i].url@) == h
    ||| dns_host_list().contains(h)
}

/// No string occurs twice.
pub open spec fn no_repeats(s: Seq<Seq<char>>) -> bool {
    forall|i: int, j: int| 0 <= i < j < s.len() ==> s[i] != s[j]
}

fn add_unique(out: &mut Vec<String>, h: String)
    requires
        no_repeats(views(old(out)@)),
    ensures
        no_repeats(views(final(out)@)),
        forall|x: Seq<char>|
            views(final(out)@).contains(x) <==> (views(old(out)@).contains(x) || x == h@),
{
    let ghost before = views(out@);
    let mut j: usize = 0;
    while j < out.len()
        invariant
            j <= out.len(),
            views(out@) == before,
            no_repeats(before),
            forall|k: int| 0 <= k < j ==> out@[k]@ != h@,
        decreases out.len() - j,
    {
        if out[j] == h {
            proof {
                assert(views(out@)[j as int] == h@);
            }
            return;
        }
        j = j + 1;
    }
    proof {
        assert forall|k: int| 0 <= k < before.len() implies before[k] != h@ by {
            assert(before[k] == out@[k]@);
        }
    }
    out.push(h);
    proof {
        assert(views(out@) =~= before.push(h@));
        assert forall|x: Seq<char>|
            views(out@).contains(x) <==> (before.contains(x) || x == h@) by {
            if views(out@).contains(x) {
                let k = choose|k: int| 0 <= k < views(out@).len() && views(out@)[k] == x;
                if k < before.len() {
                    assert(before[k] == x);
                }
            }
            if before.contains(x) {
                let k = choose|k: int| 0 <= k < before.len() && before[k] == x;
                assert(views(out@)[k] == x);
            }
            if x == h@ {
                assert(views(out@)[before.len() as int] == x);
            }
        }
    }
}

/// Every host to resolve before probing: the hosts of the direct-route probes
/// plus the hosts the DNS Resolution section shows, each once.
pub fn hosts_to_resolve(probes: &Probes, proxy_active: bool) -> (r: Vec<String>)
    ensures
        no_repeats(views(r@)),
        forall|h: Seq<char>| views(r@).contains(h) <==> wanted_host(*probes, proxy_active, h),
        forall|i: int|
            0 <= i < all_probes(*probes).len() && !(#[trigger] all_probes(*probes)[i].use_proxy
                && proxy_active) ==> views(r@).contains(url_host(all_probes(*probes)[i].url@)),
        forall|i: int| 0 <= i < dns_host_list().len() ==> views(r@).contains(#[trigger] dns_host_list()[i]),
{
    let all = probes.all();
    let ghost whole = all_probes(*probes);
    let mut out: Vec<String> = Vec::new();
    let mut i: usize = 0;
    while i < all.len()
        invariant
            whole == all_probes(*probes),
            all@.len() == whole.len(),
            forall|k: int| 0 <= k < all@.len() ==> *#[trigger] all@[k] == whole[k],
            i <= all.len(),
            no_repeats(views(out@)),
            forall|h: Seq<char>|
                views(out@).contains(h) <==> exists|k: int|
                    0 <= k < i && direct_route(#[trigger] whole[k], proxy_active) && url_host(
                        whole[k].url@,
                    ) == h,
        decreases all.len() - i,
    {
        let p: &Probe = all[i];
        let ghost before = views(out@);
        if !(p.use_proxy && proxy_active) {
            add_unique(&mut out, String::from_str(p.host()));
        }
        proof {
            assert(*p == whole[i as int]);
            assert forall|h: Seq<char>|
                views(out@).contains(h) <==> exists|k: int|
                    0 <= k < i + 1 && direct_route(#[trigger] whole[k], proxy_active) && url_host(
                        whole[k].url@,
                    ) == h by {
                if direct_route(whole[i as int], proxy_active) && url_host(whole[i as int].url@)
                    == h {
                    assert(0 <= i < i + 1);
                }
                if exists|k: int|
                    0 <= k < i + 1 && direct_route(#[trigger] whole[k], proxy_active) && url_host(
                        whole[k].url@,
                    ) == h {
                    let k = choose|k: int|
                        0 <= k < i + 1 && direct_route(#[trigger] whole[k], proxy_active)
                            && url_host(whole[k].url@) == h;
                    if k < i {
                        assert(before.contains(h));
                    }
                }
            }
        }
        i = i + 1;
    }
    let hosts = dns_hosts();
    let mut j: usize = 0;
    while j < hosts.len()
        invariant
            whole == all_probes(*probes),
            hosts@.len() == dns_host_list().len(),
            forall|k: int| 0 <= k < hosts@.len() ==> #[trigger] hosts@[k]@ == dns_host_list()[k],
            j <= hosts.len(),
            no_repeats(views(out@)),
            forall|h: Seq<char>|
                views(out@).contains(h) <==> ((exists|k: int|
                    0 <= k < whole.len() && direct_route(#[trigger] whole[k], proxy_active)
                        && url_host(whole[k].url@) == h) || dns_host_list().take(
                    j as int,
                ).contains(h)),
        decreases hosts.len() - j,
    {
        let ghost before = views(out@);
        add_unique(&mut out, hosts[j].clone());
        proof {
            let t = dns_host_list().take(j + 1);
            assert(t.drop_last() =~= dns_host_list().take(j as int));
            assert(t.last() == hosts@[j as int]@);
            assert forall|h: Seq<char>|
                t.contains(h) <==> (dns_host_list().take(j as int).contains(h) || h
                    == hosts@[j as int]@) by {
                if t.contains(h) {
                    let k = choose|k: int| 0 <= k < t.len() && t[k] == h;
                    if k < j {
                        assert(dns_host_list().take(j as int)[k] == h);
                    }
                }
                if dns_host_list().take(j as int).contains(h) {
                    let k = choose|k: int|
                        0 <= k < j && dns_host_list().take(j as int)[k] == h;
                    assert(t[k] == h);
                }
                if h == hosts@[j as int]@ {
                    assert(t[j as int] == h);
                }
            }
        }
        j = j + 1;
    }
    assert(dns_host_list().take(hosts.len() as int) =~= dns_host_list());
    proof {
        assert forall|i: int|
            0 <= i < all_probes(*probes).len() && !(#[trigger] all_probes(*probes)[i].use_proxy
                && proxy_active) implies views(out@).contains(
            url_host(all_probes(*probes)[i].url@),
        ) by {
            assert(direct_route(all_probes(*probes)[i], proxy_active));
            assert(wanted_host(*probes, proxy_active, url_host(all_probes(*probes)[i].url@)));
        }
        assert forall|i: int| 0 <= i < dns_host_list().len() implies views(out@).contains(
            #[trigger] dns_host_list()[i],
        ) by {
            assert(dns_host_list().contains(dns_host_list()[i]));
        }
    }
    out
}

/// `new` is `old` with its address pinned from the answers: a direct-route
/// probe gets what its host resolved to (none when it did not resolve); a
/// proxied probe keeps what it had.
pub open spec fn pinned_from(old: Probe, new: Probe, rs: Seq<Resolution>, proxy_active: bool) -> bool {
    &&& new.label@ == old.label@
    &&& new.url@ == old.url@
    &&& new.use_proxy == old.use_proxy
    &&& new.ip == if direct_route(old, proxy_active) {
        resolved_ip(rs, url_host(old.url@))
    } else {
        old.ip
    }
}

/// Every probe of `new` is the one of `old` at its position, pinned.
pub open spec fn list_pinned(old: Seq<Probe>, new: Seq<Probe>, rs: Seq<Resolution>, proxy_active: bool) -> bool {
    &&& new.len() == old.len()
    &&& forall|i: int|
        0 <= i < new.len() ==> pinned_from(old[i], #[trigger] new[i], rs, proxy_active)
}

fn pin_list(list: &mut Vec<Probe>, resolved: &Vec<Resolution>, proxy_active: bool)
    ensures
        list_pinned(old(list)@, final(list)@, resolved@, proxy_active),
{
    let mut out: Vec<Probe> = Vec::new();
    let mut i: usize = 0;
    while i < list.len()
        invariant
            i <= list.len(),
            out@.len() == i,
            forall|k: int|
                0 <= k < i ==> pinned_from(list@[k], #[trigger] out@[k], resolved@, proxy_active),
        decreases list.len() - i,
    {
        let p = &list[i];
        let ip = if p.use_proxy && proxy_active {
            p.ip
        } else {
            match lookup(resolved, p.host()) {
                Some(k) => resolved[k].ip,
                None => None,
            }
        };
        out.push(
            Probe { label: p.label.clone(), url: p.url.clone(), use_proxy: p.use_proxy, ip },
        );
        i = i + 1;
    }
    *list = out;
}

/// Pin the resolved IPs onto the direct-route probes.
pub fn pin_ips(probes: &mut Probes, resolved: &Vec<Resolution>, proxy_active: bool)
    ensures
        list_pinned(old(probes).domestic@, final(probes).domestic@, resolved@, proxy_active),
        list_pinned(old(probes).global@, final(probes).global@, resolved@, proxy_active),
        list_pinned(old(probes).filtered@, final(probes).filtered@, resolved@, proxy_active),
{
    pin_list(&mut probes.domestic, resolved, proxy_active);
    pin_list(&mut probes.global, resolved, proxy_active);
    pin_list(&mut probes.filtered, resolved, proxy_active);
}

/// On the direct route a probe is handed the address its host resolved to,
/// so the HTTP client never calls the OS resolver; a host that did not
/// resolve is skipped rather than looked up again.
pub proof fn law_direct_probe_uses_pinned_address(
    old: Probe,
    new: Probe,
    rs: Seq<Resolution>,
    proxy: Option<Seq<char>>,
    accepted: bool,
    r: SitePlan,
)
    requires
        pinned_from(old, new, rs, proxy is Some),
        planned(new, true, proxy, accepted, r),
        !via_proxy(new, proxy),
    ensures
        resolved_ip(rs, url_host(old.url@)) matches Some(ip) ==> (r matches SitePlan::Direct {
            host,
            ip: pinned,
        } && pinned == ip && host@ == url_host(old.url@)),
        resolved_ip(rs, url_host(old.url@)) is None ==> (r matches SitePlan::Done(s) && !s.ok),
{
}

// ---------------------------------------------------------------------------
// Result sections
// ---------------------------------------------------------------------------

/// A section of the site results: its heading line and the positions
/// `start..end` of its results among all results (in `Probes::all` order).
pub struct Section {
    pub heading: String,
    pub start: usize,
    pub end: usize,
}

/// `"\n<CYAN><title><RESET>"`.
pub open spec fn section_heading(title: Seq<char>) -> Seq<char> {
    "\n"@ + CYAN@ + title + RESET@
}

/// `"<name> (<route> Route):"` after the section marker.
pub open spec fn section_title(name: Seq<char>, route: Seq<char>) -> Seq<char> {
    "[*] "@ + name + " ("@ + route + " Route):"@
}

/// The three sections: domestic sites (always the direct route), then global
/// and filtered sites (the mode's route), covering all results in order.
pub open spec fn sections_are(mode: Mode, probes: Probes, r: Seq<Section>) -> bool {
    let d = probes.domestic@.len();
    let g = probes.global@.len();
    let n = all_probes(probes).len();
    &&& r.len() == 3
    &&& r[0].heading@ == section_heading(section_title("Domestic Websites"@, "DIRECT"@))
    &&& r[0].start == 0 && r[0].end == d
    &&& r[1].heading@ == section_heading(
        section_title("Global Web Standpoints"@, mode_label(mode)),
    )
    &&& r[1].start == d && r[1].end == d + g
    &&& r[2].heading@ == section_heading(section_title("Filtered Websites"@, mode_label(mode)))
    &&& r[2].start == d + g && r[2].end == n
}

fn heading_chars(name: &str, route: &str) -> (r: String)
    ensures
        r@ == section_heading(section_title(name@, route@)),
{
    let t = cat(
        &cat(&cat(&cat(&chars_of("[*] "), &chars_of(name)), &chars_of(" (")), &chars_of(route)),
        &chars_of(" Route):"),
    );
    string_from_chars(&cat(&cat(&cat(&chars_of("\n"), &chars_of(CYAN)), &t), &chars_of(RESET)))
}

/// How the site results are printed: the three sections with their headings
/// and ranges.
pub fn result_sections(mode: Mode, probes: &Probes) -> (r: Vec<Section>)
    ensures
        sections_are(mode, *probes, r@),
{
    let n = probes.all().len();
    let d = probes.domestic.len();
    let g = probes.global.len();
    let label = mode.label();
    let mut r: Vec<Section> = Vec::new();
    r.push(Section { heading: heading_chars("Domestic Websites", "DIRECT"), start: 0, end: d });
    r.push(
        Section { heading: heading_chars("Global Web Standpoints", label), start: d, end: d + g },
    );
    r.push(
        Section { heading: heading_chars("Filtered Websites", label), start: d + g, end: n },
    );
    r
}

// ---------------------------------------------------------------------------
// Header
// ---------------------------------------------------------------------------

/// `parts` joined by `sep`.
pub open spec fn join(parts: Seq<Seq<char>>, sep: Seq<char>) -> Seq<char>
    decreases parts.len(),
{
    if parts.len() == 0 {
        seq![]
    } else if parts.len() == 1 {
        parts[0]
    } else {
        join(parts.drop_last(), sep) + sep + parts.last()
    }
}

/// The DNS servers for the header: "none" when there are none.
pub open spec fn servers_text(servers: Seq<Seq<char>>) -> Seq<char> {
    if servers.len() == 0 {
        "none"@
    } else {
        join(servers, ", "@)
    }
}

/// The local address for the header: "unknown" when it is not known.
pub open spec fn local_ip_text(ip: Option<Ipv4>) -> Seq<char> {
    match ip {
        Some(a) => ipv4_text(a),
        None => "unknown"@,
    }
}

pub open spec fn rule_line() -> Seq<char> {
    YELLOW@ + "==============================================="@ + RESET@
}

/// `"   <label><CYAN><value><RESET>"`.
pub open spec fn field_line(label: Seq<char>, value: Seq<char>) -> Seq<char> {
    label + CYAN@ + value + RESET@
}

/// The proxy line of the header (proxy mode only).
pub open spec fn proxy_line(proxy: Option<Seq<char>>) -> Seq<char> {
    match proxy {
        Some(p) => field_line("   System Proxy:  "@, p),
        None => "   System Proxy:  "@ + RED@ + "Not detected; using direct route"@ + RESET@,
    }
}

/// The lines of the run's header, in order.
pub open spec fn header_text(mode: Mode, info: SysInfo, proxy: Option<Seq<char>>) -> Seq<Seq<char>> {
    let top = seq![
        "\n"@ + rule_line(),
        YELLOW@ + "   netchecker — Network Standpoint Test        "@ + RESET@,
        field_line("   Running Mode:  "@, mode_label(mode)),
        field_line("   Local IP:      "@, local_ip_text(info.local_ip)),
        field_line("   DNS resolvers: "@, servers_text(views(info.dns_servers@))),
    ];
    let middle = if mode == Mode::Proxy {
        seq![proxy_line(proxy)]
    } else {
        seq![]
    };
    let bottom = seq![
        field_line("   Per-probe timeout: "@, "2 seconds"@),
        rule_line(),
        CYAN@ + "[*] Dispatching parallel probes..."@ + RESET@ + "\n"@,
    ];
    top + middle + bottom
}

fn join_chars(parts: &Vec<String>, sep: &str) -> (r: Vec<char>)
    ensures
        r@ == join(views(parts@), sep@),
{
    let mut r: Vec<char> = Vec::new();
    let s = chars_of(sep);
    let mut i: usize = 0;
    while i < parts.len()
        invariant
            s@ == sep@,
            i <= parts.len(),
            r@ == join(views(parts@).take(i as int), sep@),
        decreases parts.len() - i,
    {
        let ghost t = views(parts@).take(i + 1);
        assert(t.drop_last() =~= views(parts@).take(i as int));
        assert(t.last() == parts@[i as int]@);
        if i == 0 {
            r = chars_of(parts[i].as_str());
            assert(t.len() == 1);
        } else {
            r = cat(&cat(&r, &s), &chars_of(parts[i].as_str()));
        }
        i = i + 1;
    }
    assert(views(parts@).take(parts.len() as int) =~= views(parts@));
    r
}

fn field_chars(label: &str, value: &Vec<char>) -> (r: String)
    ensures
        r@ == field_line(label@, value@),
{
    string_from_chars(&cat(&cat(&cat(&chars_of(label), &chars_of(CYAN)), value), &chars_of(RESET)))
}

/// The lines of the header printed before the probes run.
pub fn header_lines(mode: Mode, info: &SysInfo, proxy: Option<&str>) -> (r: Vec<String>)
    ensures
        views(r@) == header_text(mode, *info, oview_str(proxy)),
{
    let rule = cat(&cat(&chars_of(YELLOW), &chars_of("===============================================")), &chars_of(RESET));
    let mut r: Vec<String> = Vec::new();
    r.push(string_from_chars(&cat(&chars_of("\n"), &rule)));
    r.push(
        string_from_chars(
            &cat(
                &cat(&chars_of(YELLOW), &chars_of("   netchecker — Network Standpoint Test        ")),
                &chars_of(RESET),
            ),
        ),
    );
    r.push(field_chars("   Running Mode:  ", &chars_of(mode.label())));
    let ip = match info.local_ip {
        Some(a) => a.text_chars(),
        None => chars_of("unknown"),
    };
    r.push(field_chars("   Local IP:      ", &ip));
    let servers = if info.dns_servers.len() == 0 {
        chars_of("none")
    } else {
        join_chars(&info.dns_servers, ", ")
    };
    r.push(field_chars("   DNS resolvers: ", &servers));
    if mode == Mode::Proxy {
        match proxy {
            Some(p) => r.push(field_chars("   System Proxy:  ", &chars_of(p))),
            None => r.push(
                string_from_chars(
                    &cat(
                        &cat(
                            &cat(&chars_of("   System Proxy:  "), &chars_of(RED)),
                            &chars_of("Not detected; using direct route"),
                        ),
                        &chars_of(RESET),
                    ),
                ),
            ),
        }
    }
    r.push(field_chars("   Per-probe timeout: ", &chars_of("2 seconds")));
    r.push(string_from_chars(&rule));
    r.push(
        string_from_chars(
            &cat(
                &cat(
                    &cat(&chars_of(CYAN), &chars_of("[*] Dispatching parallel probes...")),
                    &chars_of(RESET),
                ),
                &chars_of("\n"),
            ),
        ),
    );
    assert(views(r@) =~= header_text(mode, *info, oview_str(proxy)));
    r
}

} // verus!
