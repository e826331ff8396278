use netchecker::dns::Resolution;
use netchecker::net::Ipv4;
use netchecker::probe::{plan_site, SitePlan};
use netchecker::reach::ReachResult;
use netchecker::sites::{build, Probe, Probes};
use netchecker::sysinfo::SysInfo;
use netchecker::ui::{Status, CYAN, GREEN, RED, RESET, YELLOW};
use netchecker::{
    result_sections, choose_mode, dns_status, gateway_status, header_lines, hosts_to_resolve, interface_status,
    no_gateway_status, pin_ips, raw_ip_status, route_proxy, Cli, Mode,
};

fn cli(mode: Option<&str>, direct: bool, proxy: bool) -> Cli {
    Cli { mode: mode.map(|s| s.to_string()), direct, proxy }
}

#[test]
fn auto_mode_follows_detection() {
    assert!(choose_mode(&cli(None, false, false), true) == Mode::Proxy);
    assert!(choose_mode(&cli(None, false, false), false) == Mode::Direct);
}

#[test]
fn explicit_mode_wins_over_detection() {
    assert!(choose_mode(&cli(None, true, false), true) == Mode::Direct);
    assert!(choose_mode(&cli(None, false, true), false) == Mode::Proxy);
    assert!(choose_mode(&cli(Some("direct"), false, false), true) == Mode::Direct);
    assert!(choose_mode(&cli(Some("d"), false, false), true) == Mode::Direct);
    assert!(choose_mode(&cli(Some("proxy"), false, false), false) == Mode::Proxy);
    assert!(choose_mode(&cli(Some("p"), false, false), false) == Mode::Proxy);
    // --direct is checked before the proxy argument.
    assert!(choose_mode(&cli(Some("proxy"), true, false), true) == Mode::Direct);
}

#[test]
fn unknown_mode_argument_falls_back_to_detection() {
    assert!(choose_mode(&cli(Some("socks"), false, false), true) == Mode::Proxy);
    assert!(choose_mode(&cli(Some("socks"), false, false), false) == Mode::Direct);
}

#[test]
fn mode_labels() {
    assert_eq!(Mode::Direct.label(), "DIRECT");
    assert_eq!(Mode::Proxy.label(), "PROXY");
}

#[test]
fn proxy_used_only_in_proxy_mode() {
    assert_eq!(route_proxy(Mode::Proxy, Some("http://p:1".to_string())), Some("http://p:1".to_string()));
    assert_eq!(route_proxy(Mode::Direct, Some("http://p:1".to_string())), None);
}

fn info(iface: Option<&str>, local: Option<Ipv4>, dns: Vec<&str>) -> SysInfo {
    SysInfo {
        interface: iface.map(|s| s.to_string()),
        gateway: None,
        local_ip: local,
        dns_servers: dns.into_iter().map(|s| s.to_string()).collect(),
    }
}

#[test]
fn interface_line_with_ssid() {
    let s = interface_status(&info(Some("en0"), Some(Ipv4::new(192, 168, 1, 6)), vec![]), Some("home".to_string()));
    assert_eq!(s.name, "Local Network Interface");
    assert!(s.ok && !s.info);
    assert_eq!(s.detail, "Active on en0 (192.168.1.6) — Wi-Fi SSID: home");
}

#[test]
fn interface_line_without_ssid_is_not_a_failure() {
    let s = interface_status(&info(Some("eth0"), None, vec![]), None);
    assert!(s.ok);
    assert_eq!(s.detail, "Active on eth0 — SSID unavailable or wired");
}

#[test]
fn no_interface_fails() {
    let s = interface_status(&info(None, None, vec![]), Some("x".to_string()));
    assert!(!s.ok);
    assert_eq!(s.detail, "No active network interface");
}

#[test]
fn gateway_line() {
    let r = ReachResult { ok: true, detail: "reachable".to_string(), ms: 2 };
    let s = gateway_status(Ipv4::new(192, 168, 1, 1), &r);
    assert_eq!(s.name, "Ping Default Gateway (192.168.1.1)");
    assert!(s.ok);
    assert_eq!(s.detail, "reachable — 2 ms");
}

#[test]
fn missing_gateway_is_info() {
    let s = no_gateway_status();
    assert!(s.info && s.ok);
    assert_eq!(s.name, "Default Gateway");
    assert_eq!(s.detail, "No LAN gateway (point-to-point/tunnel egress) — see raw IP check below");
    assert!(s.render().contains("[INFO]"));
}

#[test]
fn raw_ip_lines() {
    let up = raw_ip_status(&ReachResult { ok: true, detail: "reachable".to_string(), ms: 4 });
    assert_eq!(up.name, "Ping Raw Global IP (1.1.1.1)");
    assert!(up.ok);
    assert_eq!(up.detail, "Global IP routing up — 4 ms");
    let down = raw_ip_status(&ReachResult { ok: false, detail: "x".to_string(), ms: 2001 });
    assert!(!down.ok);
    assert_eq!(down.detail, "Global IP unreachable or timed out — 2001 ms");
}

fn res(host: &str, ip: Option<Ipv4>, ms: u128) -> Resolution {
    Resolution { host: host.to_string(), ip, ms }
}

#[test]
fn dns_lines() {
    let rs = vec![
        res("www.google.com", Some(Ipv4::new(142, 251, 153, 119)), 21),
        res("soft98.ir", None, 2000),
    ];
    let ok = dns_status("www.google.com", &rs);
    assert!(ok.ok);
    assert_eq!(ok.detail, "Resolved to 142.251.153.119 — 21 ms");
    let failed = dns_status("soft98.ir", &rs);
    assert!(!failed.ok);
    assert_eq!(failed.detail, "Resolution failed or timed out — 2000 ms");
    let missing = dns_status("motamem.org", &rs);
    assert!(!missing.ok);
    assert_eq!(missing.detail, "Not resolved");
}

#[test]
fn status_line_pads_name_column() {
    let s = Status::new("Google".to_string(), true, "HTTP 200 — 50 ms".to_string());
    let expected = format!("  {GREEN}[PASS]{RESET} {:<30} - {}", "Google", "HTTP 200 — 50 ms");
    assert_eq!(s.render(), expected);
    let raw = Status::new(
        "Ping Raw Global IP (1.1.1.1)".to_string(),
        true,
        "Global IP routing up — 4 ms".to_string(),
    );
    assert_eq!(
        raw.render(),
        format!("  {GREEN}[PASS]{RESET} Ping Raw Global IP (1.1.1.1)   - Global IP routing up — 4 ms")
    );
    let f = Status::new("x".repeat(40), false, "d".to_string());
    assert_eq!(f.render(), format!("  {RED}[FAIL]{RESET} {} - d", "x".repeat(40)));
}

fn sorted(mut v: Vec<String>) -> Vec<String> {
    v.sort();
    v
}

#[test]
fn hosts_in_direct_mode() {
    let probes = build(false);
    let hosts = sorted(hosts_to_resolve(&probes, false));
    let mut expected: Vec<String> = [
        "digikala.com", "www.iranketab.ir", "soft98.ir", "www.varzesh3.com", "www.wikipedia.org",
        "substack.com", "www.apple.com", "www.google.com", "motamem.org", "www.youtube.com",
        "t.me", "www.instagram.com", "x.com", "www.facebook.com",
    ]
    .iter()
    .map(|s| s.to_string())
    .collect();
    expected.sort();
    assert_eq!(hosts, expected);
}

#[test]
fn hosts_in_proxy_mode_skip_proxied_sites() {
    let probes = build(true);
    let hosts = sorted(hosts_to_resolve(&probes, true));
    let mut expected: Vec<String> = [
        "digikala.com", "www.iranketab.ir", "soft98.ir", "www.varzesh3.com", "motamem.org",
        "www.google.com",
    ]
    .iter()
    .map(|s| s.to_string())
    .collect();
    expected.sort();
    assert_eq!(hosts, expected);
}

#[test]
fn pinning_fills_direct_probes_only() {
    let mut probes = build(true);
    let rs = vec![
        res("digikala.com", Some(Ipv4::new(1, 2, 3, 4)), 5),
        res("www.youtube.com", Some(Ipv4::new(9, 9, 9, 9)), 5),
    ];
    pin_ips(&mut probes, &rs, true);
    assert_eq!(probes.domestic[0].ip, Some(Ipv4::new(1, 2, 3, 4)));
    assert_eq!(probes.domestic[1].ip, None);
    // Proxied while a proxy is active: untouched.
    assert_eq!(probes.filtered[0].ip, None);
    let mut direct = build(true);
    pin_ips(&mut direct, &rs, false);
    assert_eq!(direct.filtered[0].ip, Some(Ipv4::new(9, 9, 9, 9)));
}

#[test]
fn pinning_keeps_labels_and_urls() {
    let mut probes: Probes = build(false);
    pin_ips(&mut probes, &vec![], false);
    assert_eq!(probes.global[4].label, "Motamem (motamem.org)");
    assert_eq!(probes.global[4].url, "https://motamem.org");
    let p: &Probe = &probes.filtered[3];
    assert_eq!(p.label, "Twitter / X");
}

#[test]
fn header_in_proxy_mode() {
    let i = info(Some("en0"), Some(Ipv4::new(192, 168, 1, 6)), vec!["192.168.1.1", "8.8.8.8"]);
    let lines = header_lines(Mode::Proxy, &i, Some("socks5h://127.0.0.1:1080"));
    assert_eq!(lines.len(), 9);
    assert_eq!(lines[0], format!("\n{YELLOW}==============================================={RESET}"));
    assert_eq!(lines[1], format!("{YELLOW}   netchecker — Network Standpoint Test        {RESET}"));
    assert_eq!(lines[2], format!("   Running Mode:  {CYAN}PROXY{RESET}"));
    assert_eq!(lines[3], format!("   Local IP:      {CYAN}192.168.1.6{RESET}"));
    assert_eq!(lines[4], format!("   DNS resolvers: {CYAN}192.168.1.1, 8.8.8.8{RESET}"));
    assert_eq!(lines[5], format!("   System Proxy:  {CYAN}socks5h://127.0.0.1:1080{RESET}"));
    assert_eq!(lines[6], format!("   Per-probe timeout: {CYAN}2 seconds{RESET}"));
    assert_eq!(lines[8], format!("{CYAN}[*] Dispatching parallel probes...{RESET}\n"));
}

#[test]
fn header_in_direct_mode_without_facts() {
    let i = info(None, None, vec![]);
    let lines = header_lines(Mode::Direct, &i, None);
    assert_eq!(lines.len(), 8);
    assert_eq!(lines[3], format!("   Local IP:      {CYAN}unknown{RESET}"));
    assert_eq!(lines[4], format!("   DNS resolvers: {CYAN}none{RESET}"));
    let proxied = header_lines(Mode::Proxy, &i, None);
    assert_eq!(proxied[5], format!("   System Proxy:  {RED}Not detected; using direct route{RESET}"));
}

#[test]
fn probe_targets() {
    assert_eq!(netchecker::gateway_ports(), vec![80, 443, 53]);
    assert_eq!(netchecker::raw_ip_ports(), vec![443]);
    assert_eq!(netchecker::raw_ip(), Ipv4::new(1, 1, 1, 1));
}

#[test]
fn pinned_probe_is_planned_direct() {
    let mut probes = build(true);
    let rs = vec![res("soft98.ir", Some(Ipv4::new(7, 7, 7, 7)), 3)];
    pin_ips(&mut probes, &rs, true);
    match plan_site(&probes.domestic[2], true, Some("http://127.0.0.1:8080")) {
        SitePlan::Direct { host, ip } => {
            assert_eq!(host, "soft98.ir");
            assert_eq!(ip, Ipv4::new(7, 7, 7, 7));
        },
        _ => panic!("expected the direct route"),
    }
    match plan_site(&probes.domestic[0], true, Some("http://127.0.0.1:8080")) {
        SitePlan::Done(s) => assert_eq!(s.detail, "Local DNS could not resolve host — skipped"),
        _ => panic!("expected a skipped probe"),
    }
}

#[test]
fn result_sections_follow_the_lists() {
    let probes = build(true);
    let s = result_sections(Mode::Proxy, &probes);
    assert_eq!(s.len(), 3);
    assert_eq!(s[0].heading, format!("\n{CYAN}[*] Domestic Websites (DIRECT Route):{RESET}"));
    assert_eq!((s[0].start, s[0].end), (0, 4));
    assert_eq!(s[1].heading, format!("\n{CYAN}[*] Global Web Standpoints (PROXY Route):{RESET}"));
    assert_eq!((s[1].start, s[1].end), (4, 9));
    assert_eq!(s[2].heading, format!("\n{CYAN}[*] Filtered Websites (PROXY Route):{RESET}"));
    assert_eq!((s[2].start, s[2].end), (9, 14));
    let direct = result_sections(Mode::Direct, &probes);
    assert_eq!(direct[1].heading, format!("\n{CYAN}[*] Global Web Standpoints (DIRECT Route):{RESET}"));
}
