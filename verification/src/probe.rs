//! HTTP site probes — the decisions around one `HEAD` request per site.
//!
//! Two routes:
//!   * Direct: pin the pre-resolved IP so the HTTP client never calls the OS
//!     resolver, and do not follow redirects (a cross-host redirect would
//!     trigger a fresh OS lookup). A 3xx still counts as reachable.
//!   * Proxy: hand the request to the proxy, which resolves the name itself,
//!     so following redirects is safe.
//!
//! `plan_site` decides which route a probe takes (or that it is skipped); the
//! caller sends the request and hands the outcome to `site_status`.
use vstd::prelude::*;

use crate::net::Ipv4;
use crate::sites::{url_host, Probe};
use crate::text::{
    cat, chars_of, dec, dec_chars, oview_str, string_from_chars, with_ms, with_ms_chars,
};
use crate::ui::Status;

verus! {

/// Whether `reqwest::Proxy::all` accepts `url` as a proxy URL. It parses the
/// URL (retrying with `http://` in front when the scheme is missing) and
/// needs a host; the answer depends on the text alone.
pub uninterp spec fn proxy_all_accepts(url: Seq<char>) -> bool;

/// `reqwest::Proxy::all(url).is_ok()`.
#[verifier::external_body]
fn proxy_url_accepted(url: &str) -> (ok: bool)
    ensures
        ok == proxy_all_accepts(url@),
{
    reqwest::Proxy::all(url).is_ok()
}

/// Seconds for the connect, and for the whole request, on the client.
pub const TIMEOUT_SECS: u64 = 2;

/// Seconds after which the request is abandoned whatever the client does.
pub const HARDCAP_SECS: u64 = 3;

/// Redirects followed on the proxy route.
pub const REDIRECT_LIMIT: usize = 5;

/// Port of the pinned address on the direct route.
pub const HTTPS_PORT: u16 = 443;

/// The `User-Agent` of the requests.
pub const USER_AGENT: &'static str = "netchecker/0.1";

/// What to do for one probe.
pub enum SitePlan {
    /// Nothing to send: the probe's result is already known.
    Done(Status),
    /// Send through the proxy at this URL, following up to five redirects.
    ViaProxy { proxy_url: String },
    /// Send directly to `ip` (port 443) for `host`, following no redirect.
    Direct { host: String, ip: Ipv4 },
}

/// Redirects a plan's request follows: `None` follows none (a 3xx is the
/// final response); `Some(n)` follows up to `n`.
pub open spec fn redirects_of(p: SitePlan) -> Option<usize> {
    match p {
        SitePlan::ViaProxy { .. } => Some(REDIRECT_LIMIT),
        _ => None,
    }
}

/// A plan's request goes through the proxy; otherwise every proxy, the
/// environment's included, is bypassed.
pub open spec fn proxied(p: SitePlan) -> bool {
    p is ViaProxy
}

impl SitePlan {
    /// The redirects the request follows: up to `REDIRECT_LIMIT` through the
    /// proxy (which resolves names itself); none on the direct route, where a
    /// cross-host redirect would bring back an OS lookup.
    pub fn redirects(&self) -> (r: Option<usize>)
        ensures
            r == redirects_of(*self),
    {
        match self {
            SitePlan::ViaProxy { .. } => Some(REDIRECT_LIMIT),
            _ => None,
        }
    }

    /// The request goes through the proxy; when false the client must bypass
    /// every proxy.
    pub fn uses_proxy(&self) -> (r: bool)
        ensures
            r == proxied(*self),
    {
        match self {
            SitePlan::ViaProxy { .. } => true,
            _ => false,
        }
    }
}

/// `s` is a PASS/FAIL result with these parts.
pub open spec fn status_is(s: Status, name: Seq<char>, ok: bool, detail: Seq<char>) -> bool {
    s.name@ == name && s.ok == ok && !s.info && s.detail@ == detail
}

/// The probe goes through the proxy: it is a proxied probe and a proxy is in use.
pub open spec fn via_proxy(probe: Probe, proxy: Option<Seq<char>>) -> bool {
    probe.use_proxy && proxy is Some
}

/// The plan for `probe`, given whether the internet is up, the proxy in use
/// and whether the HTTP client accepts that proxy's URL.
pub open spec fn planned(
    probe: Probe,
    internet_ok: bool,
    proxy: Option<Seq<char>>,
    accepted: bool,
    r: SitePlan,
) -> bool {
    if !internet_ok {
        r matches SitePlan::Done(s) && status_is(s, probe.label@, false, "Skipped — no internet"@)
    } else if via_proxy(probe, proxy) {
        if accepted {
            r matches SitePlan::ViaProxy { proxy_url } && proxy_url@ == proxy->0
        } else {
            r matches SitePlan::Done(s) && status_is(
                s,
                probe.label@,
                false,
                "Invalid proxy URL: "@ + proxy->0,
            )
        }
    } else {
        match probe.ip {
            None => r matches SitePlan::Done(s) && status_is(
                s,
                probe.label@,
                false,
                "Local DNS could not resolve host — skipped"@,
            ),
            Some(ip) => r matches SitePlan::Direct { host, ip: pinned } && host@ == url_host(
                probe.url@,
            ) && pinned == ip,
        }
    }
}


fn fail(label: &String, detail: Vec<char>) -> (s: Status)
    ensures
        status_is(s, label@, false, detail@),
{
    Status::new(label.clone(), false, string_from_chars(&detail))
}

/// The plan for `probe` once it is known whether the HTTP client accepts the
/// proxy URL (`accepted`; it matters only on the proxy route).
pub fn plan_from(probe: &Probe, internet_ok: bool, proxy: Option<&str>, accepted: bool) -> (r:
    SitePlan)
    ensures
        planned(*probe, internet_ok, oview_str(proxy), accepted, r),
        !internet_ok ==> (r matches SitePlan::Done(s) && !s.ok && s.detail@
            == "Skipped — no internet"@),
        internet_ok && probe.use_proxy && proxy is Some && accepted ==> (
        r matches SitePlan::ViaProxy { proxy_url } && proxy_url@ == proxy->0@),
        internet_ok && probe.use_proxy && proxy is Some && !accepted ==> (r matches SitePlan::Done(
            s,
        ) && !s.ok),
        internet_ok && !(probe.use_proxy && proxy is Some) && probe.ip is Some ==> (
        r matches SitePlan::Direct { host, ip } && ip == probe.ip->0 && host@ == url_host(
            probe.url@,
        )),
        internet_ok && !(probe.use_proxy && proxy is Some) && probe.ip is None ==> (
        r matches SitePlan::Done(s) && !s.ok && s.detail@
            == "Local DNS could not resolve host — skipped"@),
{
    if !internet_ok {
        return SitePlan::Done(fail(&probe.label, chars_of("Skipped — no internet")));
    }
    if probe.use_proxy && proxy.is_some() {
        let p = proxy.unwrap();
        if accepted {
            SitePlan::ViaProxy { proxy_url: String::from_str(p) }
        } else {
            SitePlan::Done(fail(&probe.label, cat(&chars_of("Invalid proxy URL: "), &chars_of(p))))
        }
    } else {
        match probe.ip {
            None => SitePlan::Done(
                fail(&probe.label, chars_of("Local DNS could not resolve host — skipped")),
            ),
            Some(ip) => SitePlan::Direct { host: String::from_str(probe.host()), ip },
        }
    }
}

/// The plan for `probe`: skipped without internet; through the proxy when the
/// probe is proxied, a proxy is in use and the HTTP client accepts its URL
/// (else failed as an invalid proxy URL); otherwise direct to the pinned
/// address, or skipped when the host did not resolve.
pub fn plan_site(probe: &Probe, internet_ok: bool, proxy: Option<&str>) -> (r: SitePlan)
    ensures
        planned(
            *probe,
            internet_ok,
            oview_str(proxy),
            via_proxy(*probe, oview_str(proxy)) && proxy_all_accepts(oview_str(proxy)->0),
            r,
        ),
{
    let accepted = if internet_ok && probe.use_proxy && proxy.is_some() {
        proxy_url_accepted(proxy.unwrap())
    } else {
        false
    };
    plan_from(probe, internet_ok, proxy, accepted)
}

/// How the request for a probe ended.
pub enum HttpOutcome {
    /// The HTTP client could not be built; the text is the error.
    ClientError(String),
    /// No answer within the hard cap on the whole request.
    HardTimeout,
    /// The request failed: while connecting, by the client's own timeout, or
    /// otherwise.
    Failed { connect: bool, timeout: bool },
    /// The server answered with this status code.
    Response(u16),
}

/// A status code that shows the site reachable: success or redirect.
pub open spec fn reachable_code(code: u16) -> bool {
    200 <= code < 400
}

/// The result of a probe whose request ended with `outcome` after `ms`
/// milliseconds: `(ok, detail)`.
pub open spec fn site_verdict(outcome: HttpOutcome, ms: u128) -> (bool, Seq<char>) {
    match outcome {
        HttpOutcome::ClientError(e) => (false, "client error: "@ + e@),
        HttpOutcome::HardTimeout => (false, "Timed out after "@ + dec(ms as nat) + " ms"@),
        HttpOutcome::Failed { connect, timeout } => (
            false,
            with_ms(
                if connect {
                    "Connection failed"@
                } else if timeout {
                    "Timed out"@
                } else {
                    "Request failed"@
                },
                ms,
            ),
        ),
        HttpOutcome::Response(code) => if reachable_code(code) {
            (true, with_ms("HTTP "@ + dec(code as nat), ms))
        } else {
            (false, with_ms("HTTP "@ + dec(code as nat) + " (blocked/error)"@, ms))
        },
    }
}

/// The result of the probe labelled `label`.
pub fn site_status(label: &String, outcome: &HttpOutcome, ms: u128) -> (s: Status)
    ensures
        status_is(s, label@, site_verdict(*outcome, ms).0, site_verdict(*outcome, ms).1),
        s.ok <==> (*outcome matches HttpOutcome::Response(c) && 200 <= c && c < 400),
        *outcome matches HttpOutcome::Response(c) ==> (200 <= c && c < 400 ==> s.detail@
            == "HTTP "@ + dec(c as nat) + " — "@ + dec(ms as nat) + " ms"@),
{
    proof {
        law_redirect_counts_as_reachable(*outcome, ms);
    }
    match outcome {
        HttpOutcome::ClientError(e) => fail(
            label,
            cat(&chars_of("client error: "), &chars_of(e.as_str())),
        ),
        HttpOutcome::HardTimeout => fail(
            label,
            cat(&cat(&chars_of("Timed out after "), &dec_chars(ms)), &chars_of(" ms")),
        ),
        HttpOutcome::Failed { connect, timeout } => {
            let reason = if *connect {
                chars_of("Connection failed")
            } else if *timeout {
                chars_of("Timed out")
            } else {
                chars_of("Request failed")
            };
            fail(label, with_ms_chars(&reason, ms))
        },
        HttpOutcome::Response(code) => {
            let head = cat(&chars_of("HTTP "), &dec_chars(*code as u128));
            if 200 <= *code && *code < 400 {
                Status::new(label.clone(), true, string_from_chars(&with_ms_chars(&head, ms)))
            } else {
                fail(label, with_ms_chars(&cat(&head, &chars_of(" (blocked/error)")), ms))
            }
        },
    }
}

/// A site counts as reachable exactly when it answered with a status code
/// from 200 to 399 — a redirect included.
pub proof fn law_redirect_counts_as_reachable(outcome: HttpOutcome, ms: u128)
    ensures
        site_verdict(outcome, ms).0 <==> (outcome matches HttpOutcome::Response(code) && 200
            <= code && code < 400),
        forall|code: u16|
            200 <= code < 400 ==> #[trigger] site_verdict(HttpOutcome::Response(code), ms) == (
                true,
                "HTTP "@ + dec(code as nat) + " — "@ + dec(ms as nat) + " ms"@,
            ),
        forall|code: u16|
            !(200 <= code < 400) ==> !(#[trigger] site_verdict(HttpOutcome::Response(code), ms).0),
{
}

/// A probe on the direct route is sent with every proxy bypassed, to its
/// pinned address on port 443, and follows no redirect, so a 3xx is the
/// answer; through the proxy it follows up to `REDIRECT_LIMIT` redirects.
pub proof fn law_direct_route_settings(
    probe: Probe,
    proxy: Option<Seq<char>>,
    accepted: bool,
    r: SitePlan,
)
    requires
        planned(probe, true, proxy, accepted, r),
    ensures
        !via_proxy(probe, proxy) && probe.ip is Some ==> (r matches SitePlan::Direct { ip, .. }
            && ip == probe.ip->0 && !proxied(r) && redirects_of(r) is None),
        via_proxy(probe, proxy) && accepted ==> (proxied(r) && redirects_of(r) == Some(
            REDIRECT_LIMIT,
        )),
{
}

/// Without internet every probe is skipped, whatever its route.
pub proof fn law_no_internet_skips(
    probe: Probe,
    proxy: Option<Seq<char>>,
    accepted: bool,
    r: SitePlan,
)
    requires
        planned(probe, false, proxy, accepted, r),
    ensures
        r matches SitePlan::Done(s) && !s.ok,
{
}

} // verus!
