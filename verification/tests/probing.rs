use netchecker::dns::{configured_servers, lookup, query_name, Resolution};
use netchecker::net::Ipv4;
use netchecker::probe::{plan_from, plan_site, site_status, HttpOutcome, SitePlan};
use netchecker::reach::{attempt_result, race_result, ConnectOutcome};
use netchecker::sites::{build, dns_hosts, Probe};
use netchecker::sysinfo::{active_interface, gather, usable_egress, IfaceInfo};

fn probe(label: &str, url: &str, use_proxy: bool, ip: Option<Ipv4>) -> Probe {
    Probe { label: label.to_string(), url: url.to_string(), use_proxy, ip }
}

#[test]
fn host_is_between_scheme_and_path() {
    assert_eq!(probe("a", "https://www.iranketab.ir", false, None).host(), "www.iranketab.ir");
    assert_eq!(probe("a", "https://x.com/home?q=1", false, None).host(), "x.com");
    assert_eq!(probe("a", "example.org/path", false, None).host(), "example.org");
    assert_eq!(probe("a", "https://h://rest", false, None).host(), "h");
    assert_eq!(probe("a", "", false, None).host(), "");
}

#[test]
fn site_lists() {
    let p = build(false);
    assert_eq!(p.domestic.len(), 4);
    assert_eq!(p.global.len(), 5);
    assert_eq!(p.filtered.len(), 5);
    assert_eq!(p.domestic[1].url, "https://www.iranketab.ir");
    assert_eq!(p.filtered[1].label, "Telegram");
    assert_eq!(p.all().len(), 14);
    assert_eq!(p.all()[4].label, "Wikipedia");
    assert_eq!(p.all()[13].label, "Facebook");
    assert_eq!(dns_hosts(), vec!["digikala.com", "motamem.org", "www.google.com", "soft98.ir"]);
}

#[test]
fn domestic_sites_always_direct() {
    for mode in [false, true] {
        let p = build(mode);
        assert!(p.domestic.iter().all(|d| !d.use_proxy && d.ip.is_none()));
        assert!(p.global.iter().chain(p.filtered.iter()).all(|g| g.use_proxy == mode));
    }
}

#[test]
fn plan_skips_without_internet() {
    match plan_site(&probe("G", "https://g.com", true, None), false, Some("http://p:1")) {
        SitePlan::Done(s) => {
            assert!(!s.ok);
            assert_eq!(s.name, "G");
            assert_eq!(s.detail, "Skipped — no internet");
        },
        _ => panic!("expected a skipped probe"),
    }
}

#[test]
fn plan_via_proxy() {
    match plan_site(&probe("G", "https://g.com", true, None), true, Some("socks5h://127.0.0.1:1080")) {
        plan @ SitePlan::ViaProxy { .. } => {
            assert!(plan.uses_proxy());
            assert_eq!(plan.redirects(), Some(5));
            if let SitePlan::ViaProxy { proxy_url } = plan {
                assert_eq!(proxy_url, "socks5h://127.0.0.1:1080");
            }
        },
        _ => panic!("expected the proxy route"),
    }
}

#[test]
fn plan_rejects_invalid_proxy_url() {
    match plan_site(&probe("G", "https://g.com", true, None), true, Some("http://")) {
        SitePlan::Done(s) => {
            assert!(!s.ok);
            assert_eq!(s.detail, "Invalid proxy URL: http://");
        },
        _ => panic!("expected an invalid proxy"),
    }
}

#[test]
fn plan_from_takes_the_proxy_verdict() {
    let p = probe("G", "https://g.com", true, None);
    assert!(matches!(plan_from(&p, true, Some("x"), true), SitePlan::ViaProxy { .. }));
    assert!(matches!(plan_from(&p, true, Some("x"), false), SitePlan::Done(_)));
}

#[test]
fn plan_direct_pins_address() {
    let ip = Ipv4::new(5, 6, 7, 8);
    match plan_site(&probe("D", "https://digikala.com", false, Some(ip)), true, Some("http://p:1")) {
        plan @ SitePlan::Direct { .. } => {
            assert!(!plan.uses_proxy());
            assert_eq!(plan.redirects(), None);
            if let SitePlan::Direct { host, ip: pinned } = plan {
                assert_eq!(host, "digikala.com");
                assert_eq!(pinned, ip);
            }
        },
        _ => panic!("expected the direct route"),
    }
    // A proxied probe without a proxy goes direct too.
    assert!(matches!(
        plan_site(&probe("G", "https://g.com", true, Some(ip)), true, None),
        SitePlan::Direct { .. }
    ));
}

#[test]
fn plan_direct_without_address_is_skipped() {
    match plan_site(&probe("D", "https://digikala.com", false, None), true, None) {
        SitePlan::Done(s) => {
            assert!(!s.ok);
            assert_eq!(s.detail, "Local DNS could not resolve host — skipped");
        },
        _ => panic!("expected a skipped probe"),
    }
}

#[test]
fn site_status_codes() {
    let l = "Apple".to_string();
    let ok = site_status(&l, &HttpOutcome::Response(200), 119);
    assert!(ok.ok);
    assert_eq!(ok.detail, "HTTP 200 — 119 ms");
    let redirect = site_status(&l, &HttpOutcome::Response(301), 7);
    assert!(redirect.ok);
    assert_eq!(redirect.detail, "HTTP 301 — 7 ms");
    let blocked = site_status(&l, &HttpOutcome::Response(403), 30);
    assert!(!blocked.ok);
    assert_eq!(blocked.detail, "HTTP 403 (blocked/error) — 30 ms");
    assert!(!site_status(&l, &HttpOutcome::Response(199), 1).ok);
    assert!(!site_status(&l, &HttpOutcome::Response(400), 1).ok);
}

#[test]
fn site_status_failures() {
    let l = "YouTube".to_string();
    assert_eq!(site_status(&l, &HttpOutcome::HardTimeout, 3001).detail, "Timed out after 3001 ms");
    let c = site_status(&l, &HttpOutcome::Failed { connect: true, timeout: true }, 10);
    assert_eq!(c.detail, "Connection failed — 10 ms");
    let t = site_status(&l, &HttpOutcome::Failed { connect: false, timeout: true }, 2000);
    assert_eq!(t.detail, "Timed out — 2000 ms");
    let o = site_status(&l, &HttpOutcome::Failed { connect: false, timeout: false }, 0);
    assert_eq!(o.detail, "Request failed — 0 ms");
    let e = site_status(&l, &HttpOutcome::ClientError("bad tls".to_string()), 0);
    assert!(!e.ok);
    assert_eq!(e.detail, "client error: bad tls");
}

#[test]
fn connect_attempts() {
    let a = attempt_result(&ConnectOutcome::Connected, 3);
    assert!(a.ok);
    assert_eq!(a.detail, "reachable");
    assert_eq!(a.ms, 3);
    let r = attempt_result(&ConnectOutcome::Refused, 1);
    assert!(r.ok);
    assert_eq!(r.detail, "reachable (port closed, host answered)");
    let f = attempt_result(&ConnectOutcome::Failed("network unreachable".to_string()), 0);
    assert!(!f.ok);
    assert_eq!(f.detail, "unreachable (network unreachable)");
    let t = attempt_result(&ConnectOutcome::TimedOut, 2000);
    assert!(!t.ok);
    assert_eq!(t.detail, "unreachable or timed out");
}

#[test]
fn race_reachable_if_any_port_answers() {
    let v = vec![ConnectOutcome::TimedOut, ConnectOutcome::Refused, ConnectOutcome::Connected];
    let r = race_result(&v, 12);
    assert!(r.ok);
    assert_eq!(r.detail, "reachable (port closed, host answered)");
    assert_eq!(r.ms, 12);
}

#[test]
fn race_down_only_when_all_fail() {
    let v = vec![ConnectOutcome::Failed("host unreachable".to_string()), ConnectOutcome::TimedOut];
    let r = race_result(&v, 2000);
    assert!(!r.ok);
    assert_eq!(r.detail, "unreachable (host unreachable)");
    let none = race_result(&vec![], 0);
    assert!(!none.ok);
    assert_eq!(none.detail, "unreachable or timed out");
}

#[test]
fn dns_bookkeeping() {
    assert_eq!(query_name("www.google.com"), "www.google.com.");
    let rs = vec![
        Resolution { host: "a".to_string(), ip: None, ms: 1 },
        Resolution { host: "b".to_string(), ip: Some(Ipv4::new(1, 1, 1, 1)), ms: 2 },
    ];
    assert_eq!(lookup(&rs, "b"), Some(1));
    assert_eq!(lookup(&rs, "c"), None);
}

#[test]
fn servers_deduplicated_in_order() {
    let found: Vec<String> = ["192.168.1.1", "8.8.8.8", "192.168.1.1", "fe80::1", "8.8.8.8"]
        .iter()
        .map(|s| s.to_string())
        .collect();
    assert_eq!(configured_servers(&found), vec!["192.168.1.1", "8.8.8.8", "fe80::1"]);
    assert_eq!(configured_servers(&vec![]), Vec::<String>::new());
}

fn iface(name: &str, friendly: Option<&str>, ips: Vec<Ipv4>, gw: Vec<Ipv4>) -> IfaceInfo {
    IfaceInfo {
        name: name.to_string(),
        friendly_name: friendly.map(|s| s.to_string()),
        ipv4: ips,
        gateway_ipv4: gw,
    }
}

#[test]
fn egress_owner_is_active() {
    let lan = Ipv4::new(192, 168, 1, 6);
    let ifs = vec![
        iface("utun3", None, vec![Ipv4::new(10, 8, 0, 2)], vec![]),
        iface("en0", None, vec![lan], vec![Ipv4::new(192, 168, 1, 1)]),
    ];
    assert_eq!(active_interface(Some(lan), &ifs), Some(1));
    let info = gather(Some(lan), &ifs, None, vec!["192.168.1.1".to_string()]);
    assert_eq!(info.interface.as_deref(), Some("en0"));
    assert_eq!(info.gateway, Some(Ipv4::new(192, 168, 1, 1)));
    assert_eq!(info.local_ip, Some(lan));
    assert_eq!(info.dns_servers, vec!["192.168.1.1"]);
}

#[test]
fn fallback_to_default_interface() {
    let ifs = vec![iface("eth0", None, vec![Ipv4::new(10, 0, 0, 5)], vec![])];
    let default = iface("wlan0", Some(""), vec![Ipv4::new(10, 1, 1, 1)], vec![]);
    assert_eq!(usable_egress(Some(Ipv4::new(0, 0, 0, 0))), None);
    let info = gather(Some(Ipv4::new(0, 0, 0, 0)), &ifs, Some(default), vec![]);
    assert_eq!(info.interface.as_deref(), Some("wlan0"));
    assert_eq!(info.gateway, None);
    assert_eq!(info.local_ip, Some(Ipv4::new(10, 1, 1, 1)));
    let nothing = gather(None, &ifs, None, vec![]);
    assert_eq!(nothing.interface, None);
    assert_eq!(nothing.local_ip, None);
}

#[test]
fn friendly_name_preferred() {
    let ip = Ipv4::new(172, 16, 0, 9);
    let ifs = vec![iface("{GUID-1}", Some("Wi-Fi"), vec![ip], vec![])];
    let info = gather(Some(ip), &ifs, None, vec![]);
    assert_eq!(info.interface.as_deref(), Some("Wi-Fi"));
}
