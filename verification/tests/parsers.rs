use netchecker::proxy::{detect, env_proxy, scutil_proxy_of, ProxyEnv};
use netchecker::wifi::{nonempty, ssid, Platform};

fn empty_env() -> ProxyEnv {
    ProxyEnv {
        all_proxy: None,
        all_proxy_lower: None,
        https_proxy: None,
        https_proxy_lower: None,
        http_proxy: None,
        http_proxy_lower: None,
    }
}

fn s(x: &str) -> Option<String> {
    Some(x.to_string())
}

#[test]
fn nonempty_trims_and_accepts() {
    assert_eq!(nonempty("  home-net \n".to_string()), s("home-net"));
    assert_eq!(nonempty("Café Wi\u{a0}".to_string()), s("Café Wi"));
}

#[test]
fn nonempty_rejects_blank_and_messages() {
    assert_eq!(nonempty("   \t".to_string()), None);
    assert_eq!(nonempty("".to_string()), None);
    assert_eq!(nonempty("Error obtaining wireless information.".to_string()), None);
    assert_eq!(nonempty("You are not associated with an AirPort network.".to_string()), None);
    assert_eq!(nonempty("en1 is not a Wi-Fi interface.".to_string()), None);
    assert_eq!(nonempty("Wi-Fi power is OFF".to_string()), None);
    assert_eq!(nonempty("Radio DISABLED".to_string()), None);
}

#[test]
fn accepted_ssid_is_stable() {
    let first = nonempty("  lounge  ".to_string()).unwrap();
    assert_eq!(nonempty(first.clone()), Some(first));
}

#[test]
fn macos_summary_ssid() {
    let out = "<dictionary> {\n  InterfaceType : WiFi\n  SSID : home\r\n  BSSID : aa:bb\n}\n";
    assert_eq!(ssid(Platform::MacOs, Some("en0"), Some(out), None), s("home"));
}

#[test]
fn macos_falls_back_to_networksetup() {
    let summary = "<dictionary> {\n  InterfaceType : WiFi\n}\n";
    let air = "Current Wi-Fi Network: cafe\n";
    assert_eq!(ssid(Platform::MacOs, Some("en0"), Some(summary), Some(air)), s("cafe"));
    let not_assoc = "You are not associated with an AirPort network.\n";
    assert_eq!(ssid(Platform::MacOs, Some("en0"), Some(summary), Some(not_assoc)), None);
}

#[test]
fn macos_needs_an_interface() {
    assert_eq!(ssid(Platform::MacOs, None, Some("SSID : home\n"), None), None);
}

#[test]
fn linux_nmcli_active_row() {
    let out = "no:neighbour\nyes:home-5G\nno:other\n";
    assert_eq!(ssid(Platform::Linux, None, Some(out), None), s("home-5G"));
}

#[test]
fn linux_falls_back_to_iwgetid() {
    assert_eq!(ssid(Platform::Linux, None, Some("no:x\n"), Some("garage\n")), s("garage"));
    assert_eq!(ssid(Platform::Linux, None, None, Some("\n")), None);
}

#[test]
fn windows_netsh_skips_bssid() {
    let out = "    Name                   : Wi-Fi\r\n    BSSID                  : 11:22\r\n    SSID                   : lounge\r\n";
    assert_eq!(ssid(Platform::Windows, Some("Wi-Fi"), Some(out), None), s("lounge"));
    let only_bssid = "    BSSID : 11:22\r\n";
    assert_eq!(ssid(Platform::Windows, None, Some(only_bssid), None), None);
}

#[test]
fn other_platform_has_no_ssid() {
    assert_eq!(ssid(Platform::Other, Some("en0"), Some("SSID : x\n"), Some("y")), None);
}

#[test]
fn env_proxy_priority() {
    let mut env = empty_env();
    env.http_proxy = s("http://h:1");
    env.https_proxy_lower = s("http://hs:2");
    assert_eq!(env_proxy(&env), s("http://hs:2"));
    env.all_proxy = s("");
    env.all_proxy_lower = s("socks5h://a:3");
    assert_eq!(env_proxy(&env), s("socks5h://a:3"));
    env.all_proxy = s("socks5://b:4");
    assert_eq!(env_proxy(&env), s("socks5://b:4"));
}

#[test]
fn env_without_proxy() {
    let mut env = empty_env();
    env.http_proxy = s("");
    assert_eq!(env_proxy(&env), None);
    assert_eq!(detect(None, &env), None);
}

const SCUTIL_SOCKS: &str = "<dictionary> {\n  HTTPEnable : 1\n  HTTPPort : 8080\n  HTTPProxy : web.local\n  SOCKSEnable : 1\n  SOCKSPort : 1080\n  SOCKSProxy : 127.0.0.1\n}\n";

#[test]
fn scutil_socks_first() {
    assert_eq!(scutil_proxy_of(SCUTIL_SOCKS), s("socks5h://127.0.0.1:1080"));
}

#[test]
fn scutil_http_proxies() {
    let https = "<dictionary> {\n  HTTPSEnable : 1\n  HTTPSPort : 8443\n  HTTPSProxy : secure.local\n  SOCKSEnable : 0\n}\n";
    assert_eq!(scutil_proxy_of(https), s("http://secure.local:8443"));
    let http = "<dictionary> {\n  HTTPEnable : 1\n  HTTPPort : 3128\n  HTTPProxy : squid\n}\n";
    assert_eq!(scutil_proxy_of(http), s("http://squid:3128"));
    let disabled = "<dictionary> {\n  HTTPEnable : 0\n  HTTPPort : 3128\n  HTTPProxy : squid\n}\n";
    assert_eq!(scutil_proxy_of(disabled), None);
    let no_port = "<dictionary> {\n  SOCKSEnable : 1\n  SOCKSProxy : 10.0.0.1\n}\n";
    assert_eq!(scutil_proxy_of(no_port), None);
}

#[test]
fn system_proxy_wins_over_environment() {
    let mut env = empty_env();
    env.all_proxy = s("socks5h://env:9");
    assert_eq!(detect(Some(SCUTIL_SOCKS), &env), s("socks5h://127.0.0.1:1080"));
    assert_eq!(detect(Some("<dictionary> {\n}\n"), &env), s("socks5h://env:9"));
}
