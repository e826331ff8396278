//! Wi-Fi SSID — best-effort, per-OS.
//!
//! There is no dependable cross-platform way to read the SSID, so each OS has
//! its own source: `ipconfig getsummary` then `networksetup` on macOS, `nmcli`
//! then `iwgetid` on Linux, `netsh wlan show interfaces` on Windows. The
//! caller runs those commands and hands their standard output here; this
//! module decides what, if anything, in that output is an SSID. Callers must
//! treat `None` as "unknown / wired / not permitted", never as an error.
use vstd::prelude::*;

use crate::text::{
    chars_of, find_chars, first_some, lemma_find_from, lemma_first_some_end, lemma_first_some_step,
    lemma_trim_idem, lines, lines_of, lower, lower_chars, oview, slice_chars, split_second,
    split_second_range, starts_with, starts_with_chars, string_from_chars, trim, trim_chars,
    contains, find_from, oview_str,
};

verus! {

/// The operating system whose tools produced the output.
#[derive(Clone, Copy, PartialEq, Eq, Structural, Debug)]
pub enum Platform {
    MacOs,
    Linux,
    Windows,
    Other,
}

/// The tools print their errors to standard output, so a candidate that
/// mentions one of these (ignoring ASCII case) is a message, not an SSID.
pub open spec fn rejected(t: Seq<char>) -> bool {
    let low = lower(t);
    ||| contains(low, "error"@)
    ||| contains(low, "not a wi-fi"@)
    ||| contains(low, "not associated"@)
    ||| contains(low, "you are not"@)
    ||| contains(low, "off"@)
    ||| contains(low, "disabled"@)
}

/// A candidate SSID, trimmed, if it is non-empty and not a tool's message.
pub open spec fn accept_ssid(s: Seq<char>) -> Option<Seq<char>> {
    let t = trim(s);
    if t.len() == 0 || rejected(t) {
        None
    } else {
        Some(t)
    }
}

/// A line of `ipconfig getsummary`: `SSID : <name>`.
pub open spec fn summary_line(l: Seq<char>) -> Option<Seq<char>> {
    let t = trim(l);
    if starts_with(t, "SSID :"@) {
        accept_ssid(t.skip("SSID :"@.len() as int))
    } else {
        None
    }
}

pub open spec fn summary_rule() -> spec_fn(Seq<char>) -> Option<Seq<char>> {
    |l: Seq<char>| summary_line(l)
}

/// `networksetup -getairportnetwork`: `Current Wi-Fi Network: <name>`.
pub open spec fn airport_ssid(text: Seq<char>) -> Option<Seq<char>> {
    match split_second(text, ": "@) {
        Some(rest) => accept_ssid(rest),
        None => None,
    }
}

/// A line of `nmcli -t -f active,ssid dev wifi`: the active row is `yes:<ssid>`.
pub open spec fn nmcli_line(l: Seq<char>) -> Option<Seq<char>> {
    if starts_with(l, "yes:"@) {
        accept_ssid(l.skip("yes:"@.len() as int))
    } else {
        None
    }
}

pub open spec fn nmcli_rule() -> spec_fn(Seq<char>) -> Option<Seq<char>> {
    |l: Seq<char>| nmcli_line(l)
}

/// A line of `netsh wlan show interfaces`: `SSID : <name>`, never `BSSID`.
pub open spec fn netsh_line(l: Seq<char>) -> Option<Seq<char>> {
    let t = trim(l);
    if !starts_with(t, "SSID"@) || starts_with(t, "BSSID"@) {
        None
    } else {
        let k = find_from(t, seq![':'], 0);
        if k < 0 {
            None
        } else {
            accept_ssid(t.skip(k + 1))
        }
    }
}

pub open spec fn netsh_rule() -> spec_fn(Seq<char>) -> Option<Seq<char>> {
    |l: Seq<char>| netsh_line(l)
}

/// The SSID that the outputs show. `primary` is the first tool's output
/// (`ipconfig getsummary`, `nmcli`, `netsh`), `fallback` the second's
/// (`networksetup`, `iwgetid`), each present when the tool ran. On macOS
/// nothing is asked without an interface name.
pub open spec fn ssid_from(
    platform: Platform,
    has_iface: bool,
    primary: Option<Seq<char>>,
    fallback: Option<Seq<char>>,
) -> Option<Seq<char>> {
    match platform {
        Platform::MacOs => {
            if !has_iface {
                None
            } else {
                let first = match primary {
                    Some(t) => first_some(lines(t), summary_rule()),
                    None => None,
                };
                if first is Some {
                    first
                } else {
                    match fallback {
                        Some(t) => airport_ssid(t),
                        None => None,
                    }
                }
            }
        },
        Platform::Linux => {
            let first = match primary {
                Some(t) => first_some(lines(t), nmcli_rule()),
                None => None,
            };
            if first is Some {
                first
            } else {
                match fallback {
                    Some(t) => accept_ssid(t),
                    None => None,
                }
            }
        },
        Platform::Windows => match primary {
            Some(t) => first_some(lines(t), netsh_rule()),
            None => None,
        },
        Platform::Other => None,
    }
}


/// The candidate, trimmed, or `None` when it is empty or a tool's message.
fn accept_chars(v: &Vec<char>) -> (r: Option<Vec<char>>)
    ensures
        oview(r) == accept_ssid(v@),
{
    let t = trim_chars(v);
    if t.len() == 0 {
        return None;
    }
    let low = lower_chars(&t);
    if find_chars(&low, &chars_of("error"), 0).is_some() || find_chars(
        &low,
        &chars_of("not a wi-fi"),
        0,
    ).is_some() || find_chars(&low, &chars_of("not associated"), 0).is_some() || find_chars(
        &low,
        &chars_of("you are not"),
        0,
    ).is_some() || find_chars(&low, &chars_of("off"), 0).is_some() || find_chars(
        &low,
        &chars_of("disabled"),
        0,
    ).is_some() {
        return None;
    }
    Some(t)
}

/// Accept a candidate SSID only if it's non-empty and not one of the tools'
/// error / "not associated" / "not a Wi-Fi interface" messages; it comes back
/// trimmed.
pub fn nonempty(s: String) -> (r: Option<String>)
    ensures
        match r {
            Some(t) => accept_ssid(s@) == Some(t@),
            None => accept_ssid(s@) is None,
        },
        r is Some <==> (trim(s@).len() > 0 && !(contains(lower(trim(s@)), "error"@) || contains(lower(trim(s@)), "not a wi-fi"@) || contains(lower(trim(s@)), "not associated"@) || contains(lower(trim(s@)), "you are not"@) || contains(lower(trim(s@)), "off"@) || contains(lower(trim(s@)), "disabled"@))),
        r matches Some(t) ==> t@ == trim(s@),
{
    proof {
        law_ssid_rejects_exactly_messages(s@);
    }
    match accept_chars(&chars_of(s.as_str())) {
        Some(t) => Some(string_from_chars(&t)),
        None => None,
    }
}

fn summary_line_chars(l: &Vec<char>) -> (r: Option<Vec<char>>)
    ensures
        oview(r) == summary_line(l@),
{
    let t = trim_chars(l);
    let p = chars_of("SSID :");
    if starts_with_chars(&t, &p) {
        accept_chars(&slice_chars(&t, p.len(), t.len()))
    } else {
        None
    }
}

fn nmcli_line_chars(l: &Vec<char>) -> (r: Option<Vec<char>>)
    ensures
        oview(r) == nmcli_line(l@),
{
    let p = chars_of("yes:");
    if starts_with_chars(l, &p) {
        accept_chars(&slice_chars(l, p.len(), l.len()))
    } else {
        None
    }
}

fn netsh_line_chars(l: &Vec<char>) -> (r: Option<Vec<char>>)
    ensures
        oview(r) == netsh_line(l@),
{
    let t = trim_chars(l);
    if !starts_with_chars(&t, &chars_of("SSID")) || starts_with_chars(&t, &chars_of("BSSID")) {
        return None;
    }
    let colon = vec![':'];
    assert(colon@ =~= seq![':']);
    match find_chars(&t, &colon, 0) {
        None => None,
        Some(k) => {
            proof {
                lemma_find_from(t@, colon@, 0);
                assert(find_from(t@, colon@, 0) == k as int);
                assert(k + colon@.len() <= t@.len());
            }
            assert(k + 1 <= t.len());
            accept_chars(&slice_chars(&t, k + 1, t.len()))
        },
    }
}

/// Which line rule a scan applies.
enum LineKind {
    Summary,
    Nmcli,
    Netsh,
}

spec fn kind_rule(k: LineKind) -> spec_fn(Seq<char>) -> Option<Seq<char>> {
    match k {
        LineKind::Summary => summary_rule(),
        LineKind::Nmcli => nmcli_rule(),
        LineKind::Netsh => netsh_rule(),
    }
}

/// The first line of `text` that the rule accepts.
fn scan_lines(text: &str, kind: LineKind) -> (r: Option<Vec<char>>)
    ensures
        oview(r) == first_some(lines(text@), kind_rule(kind)),
{
    let v = chars_of(text);
    let ls = lines_of(&v);
    let ghost big = lines(text@);
    let ghost f = kind_rule(kind);
    proof {
        lemma_first_some_end(big, f);
    }
    let mut i: usize = 0;
    while i < ls.len()
        invariant
            v@ == text@,
            big == lines(text@),
            f == kind_rule(kind),
            ls@.len() == big.len(),
            forall|k: int| 0 <= k < ls@.len() ==> #[trigger] ls@[k]@ == big[k],
            i <= ls.len(),
            first_some(big, f) == first_some(big.skip(i as int), f),
        decreases ls.len() - i,
    {
        let l = &ls[i];
        let found = match kind {
            LineKind::Summary => summary_line_chars(l),
            LineKind::Nmcli => nmcli_line_chars(l),
            LineKind::Netsh => netsh_line_chars(l),
        };
        proof {
            assert(ls@[i as int]@ == big[i as int]);
            lemma_first_some_step(big, f, i as int);
        }
        if found.is_some() {
            return found;
        }
        i = i + 1;
    }
    proof {
        lemma_first_some_end(big, f);
    }
    None
}

/// `networksetup -getairportnetwork` output.
fn airport_chars(text: &str) -> (r: Option<Vec<char>>)
    ensures
        oview(r) == airport_ssid(text@),
{
    let v = chars_of(text);
    match split_second_range(&v, &chars_of(": ")) {
        Some((a, b)) => accept_chars(&slice_chars(&v, a, b)),
        None => None,
    }
}

/// Return the current Wi-Fi SSID shown by the tools' outputs, else `None`.
/// `iface` is the active interface name, which the macOS tools need: without
/// it they are not asked.
pub fn ssid(
    platform: Platform,
    iface: Option<&str>,
    primary: Option<&str>,
    fallback: Option<&str>,
) -> (r: Option<String>)
    ensures
        match r {
            Some(s) => ssid_from(platform, iface is Some, oview_str(primary), oview_str(
                fallback,
            )) == Some(s@),
            None => ssid_from(
                platform,
                iface is Some,
                oview_str(primary),
                oview_str(fallback),
            ) is None,
        },
{
    let found = match platform {
        Platform::MacOs => {
            if iface.is_none() {
                None
            } else {
                let first = match primary {
                    Some(t) => scan_lines(t, LineKind::Summary),
                    None => None,
                };
                if first.is_some() {
                    first
                } else {
                    match fallback {
                        Some(t) => airport_chars(t),
                        None => None,
                    }
                }
            }
        },
        Platform::Linux => {
            let first = match primary {
                Some(t) => scan_lines(t, LineKind::Nmcli),
                None => None,
            };
            if first.is_some() {
                first
            } else {
                match fallback {
                    Some(t) => accept_chars(&chars_of(t)),
                    None => None,
                }
            }
        },
        Platform::Windows => match primary {
            Some(t) => scan_lines(t, LineKind::Netsh),
            None => None,
        },
        Platform::Other => None,
    };
    match found {
        Some(v) => Some(string_from_chars(&v)),
        None => None,
    }
}

/// A candidate is refused exactly when, trimmed, it is empty or its ASCII
/// lower-case form contains one of the tools' message phrases ("error", "not
/// a wi-fi", "not associated", "you are not", "off", "disabled"); otherwise
/// it comes back trimmed and otherwise unchanged.
pub proof fn law_ssid_rejects_exactly_messages(s: Seq<char>)
    ensures
        accept_ssid(s) is None <==> (trim(s).len() == 0 || contains(lower(trim(s)), "error"@) || contains(lower(trim(s)), "not a wi-fi"@) || contains(lower(trim(s)), "not associated"@) || contains(lower(trim(s)), "you are not"@) || contains(lower(trim(s)), "off"@) || contains(lower(trim(s)), "disabled"@)),
        accept_ssid(s) matches Some(t) ==> t == trim(s),
{
}

/// An accepted SSID is accepted again unchanged: the check is stable.
pub proof fn law_accepted_ssid_is_stable(s: Seq<char>)
    ensures
        accept_ssid(s) matches Some(t) ==> accept_ssid(t) == Some(t),
{
    lemma_trim_idem(s);
}

/// A `BSSID` line of `netsh` never yields an SSID.
pub proof fn law_bssid_is_not_ssid(l: Seq<char>)
    requires
        starts_with(trim(l), "BSSID"@),
    ensures
        netsh_line(l) is None,
{
}

} // verus!
