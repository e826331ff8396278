//! System proxy detection.
//!
//! Two sources cover what matters in practice:
//!
//!   * environment variables (`ALL_PROXY`, `HTTPS_PROXY`, `HTTP_PROXY` and their
//!     lower-case forms) — how most CLI setups declare a proxy;
//!   * `scutil --proxy` on macOS — catches GUI-configured system proxies that
//!     aren't in the environment.
//!
//! The caller reads the variables and runs `scutil`; this module decides. The
//! answer is a URL string for `reqwest::Proxy::all`, or `None`.
use vstd::prelude::*;

use crate::text::{
    cat, chars_of, first_some, oview_str, oview_string, lemma_first_some_end, lemma_first_some_step, lines, lines_of, oview,
    slice_chars, starts_with, starts_with_chars, string_from_chars, trim, trim_chars, trim_start,
    trim_start_chars,
};

verus! {

/// The proxy variables of the environment, each present when it is set.
pub struct ProxyEnv {
    pub all_proxy: Option<String>,
    pub all_proxy_lower: Option<String>,
    pub https_proxy: Option<String>,
    pub https_proxy_lower: Option<String>,
    pub http_proxy: Option<String>,
    pub http_proxy_lower: Option<String>,
}

/// A variable that is set to something.
pub open spec fn set_nonempty(o: Option<String>) -> bool {
    o matches Some(v) && v@.len() > 0
}

/// The first variable set to something, in the order `ALL_PROXY`,
/// `all_proxy`, `HTTPS_PROXY`, `https_proxy`, `HTTP_PROXY`, `http_proxy`:
/// SOCKS (socks5h keeps DNS on the proxy side) first, then HTTPS, then HTTP.
pub open spec fn env_proxy_spec(e: ProxyEnv) -> Option<Seq<char>> {
    if set_nonempty(e.all_proxy) {
        Some(e.all_proxy->0@)
    } else if set_nonempty(e.all_proxy_lower) {
        Some(e.all_proxy_lower->0@)
    } else if set_nonempty(e.https_proxy) {
        Some(e.https_proxy->0@)
    } else if set_nonempty(e.https_proxy_lower) {
        Some(e.https_proxy_lower->0@)
    } else if set_nonempty(e.http_proxy) {
        Some(e.http_proxy->0@)
    } else if set_nonempty(e.http_proxy_lower) {
        Some(e.http_proxy_lower->0@)
    } else {
        None
    }
}

/// A line `<key> : <value>` of `scutil --proxy`, read as `key`.
pub open spec fn scutil_line(key: Seq<char>, l: Seq<char>) -> Option<Seq<char>> {
    let t = trim(l);
    if starts_with(t, key) {
        let r = trim_start(t.skip(key.len() as int));
        if starts_with(r, seq![':']) {
            Some(trim(r.skip(1)))
        } else {
            None
        }
    } else {
        None
    }
}

pub open spec fn scutil_rule(key: Seq<char>) -> spec_fn(Seq<char>) -> Option<Seq<char>> {
    |l: Seq<char>| scutil_line(key, l)
}

/// The value of `key` in `scutil --proxy` output: its first line that reads.
pub open spec fn scutil_value(ls: Seq<Seq<char>>, key: Seq<char>) -> Option<Seq<char>> {
    first_some(ls, scutil_rule(key))
}

/// `key` is set to `1`.
pub open spec fn scutil_enabled(ls: Seq<Seq<char>>, key: Seq<char>) -> bool {
    scutil_value(ls, key) == Some("1"@)
}

/// `<scheme>://<host>:<port>`.
pub open spec fn proxy_url(scheme: Seq<char>, host: Seq<char>, port: Seq<char>) -> Seq<char> {
    scheme + host + ":"@ + port
}

/// The proxy that `scutil --proxy` output configures: an enabled SOCKS proxy
/// first, then an enabled HTTPS proxy, then an enabled HTTP proxy (both of
/// which macOS describes as HTTP CONNECT proxies); each needs its host and
/// port.
pub open spec fn scutil_proxy(text: Seq<char>) -> Option<Seq<char>> {
    let ls = lines(text);
    if scutil_enabled(ls, "SOCKSEnable"@) && scutil_value(ls, "SOCKSProxy"@) is Some
        && scutil_value(ls, "SOCKSPort"@) is Some {
        Some(
            proxy_url(
                "socks5h://"@,
                scutil_value(ls, "SOCKSProxy"@)->0,
                scutil_value(ls, "SOCKSPort"@)->0,
            ),
        )
    } else if scutil_enabled(ls, "HTTPSEnable"@) && scutil_value(ls, "HTTPSProxy"@) is Some
        && scutil_value(ls, "HTTPSPort"@) is Some {
        Some(
            proxy_url(
                "http://"@,
                scutil_value(ls, "HTTPSProxy"@)->0,
                scutil_value(ls, "HTTPSPort"@)->0,
            ),
        )
    } else if scutil_enabled(ls, "HTTPEnable"@) && scutil_value(ls, "HTTPProxy"@) is Some
        && scutil_value(ls, "HTTPPort"@) is Some {
        Some(
            proxy_url(
                "http://"@,
                scutil_value(ls, "HTTPProxy"@)->0,
                scutil_value(ls, "HTTPPort"@)->0,
            ),
        )
    } else {
        None
    }
}

/// The proxy in use: the one `scutil` shows (when its output is given), else
/// the environment's.
pub open spec fn detect_spec(scutil_output: Option<Seq<char>>, env: ProxyEnv) -> Option<Seq<char>> {
    match scutil_output {
        Some(t) if scutil_proxy(t) is Some => scutil_proxy(t),
        _ => env_proxy_spec(env),
    }
}

fn take_set(o: &Option<String>) -> (r: Option<String>)
    ensures
        set_nonempty(*o) ==> (r matches Some(v) && v@ == o->0@),
        !set_nonempty(*o) ==> r is None,
{
    match o {
        Some(v) => {
            if v.as_str().unicode_len() > 0 {
                Some(v.clone())
            } else {
                None
            }
        },
        None => None,
    }
}

/// The proxy the environment declares.
pub fn env_proxy(env: &ProxyEnv) -> (r: Option<String>)
    ensures
        oview_string(r) == env_proxy_spec(*env),
        r is Some <==> exists|k: int|
            0 <= k < 6 && (#[trigger] proxy_vars(*env)[k] matches Some(x) && x@.len() > 0),
        r matches Some(v) ==> exists|k: int|
            0 <= k < 6 && (#[trigger] proxy_vars(*env)[k] matches Some(x) && x@.len() > 0 && x@
                == v@) && forall|j: int|
                0 <= j < k ==> !(#[trigger] proxy_vars(*env)[j] matches Some(y) && y@.len() > 0),
{
    proof {
        law_env_first_nonempty(*env);
    }
    let candidates = [
        &env.all_proxy,
        &env.all_proxy_lower,
        &env.https_proxy,
        &env.https_proxy_lower,
        &env.http_proxy,
        &env.http_proxy_lower,
    ];
    let r = take_set(candidates[0]);
    if r.is_some() {
        return r;
    }
    let r = take_set(candidates[1]);
    if r.is_some() {
        return r;
    }
    let r = take_set(candidates[2]);
    if r.is_some() {
        return r;
    }
    let r = take_set(candidates[3]);
    if r.is_some() {
        return r;
    }
    let r = take_set(candidates[4]);
    if r.is_some() {
        return r;
    }
    take_set(candidates[5])
}


fn scutil_line_chars(key: &Vec<char>, l: &Vec<char>) -> (r: Option<Vec<char>>)
    ensures
        oview(r) == scutil_line(key@, l@),
{
    let t = trim_chars(l);
    if !starts_with_chars(&t, key) {
        return None;
    }
    let r = trim_start_chars(&slice_chars(&t, key.len(), t.len()));
    let colon = vec![':'];
    assert(colon@ =~= seq![':']);
    if starts_with_chars(&r, &colon) {
        Some(trim_chars(&slice_chars(&r, 1, r.len())))
    } else {
        None
    }
}

/// The value of `key` in the lines of `scutil --proxy` output.
fn scutil_value_chars(ls: &Vec<Vec<char>>, key: &str, Ghost(big): Ghost<Seq<Seq<char>>>) -> (r:
    Option<Vec<char>>)
    requires
        ls@.len() == big.len(),
        forall|k: int| 0 <= k < ls@.len() ==> #[trigger] ls@[k]@ == big[k],
    ensures
        oview(r) == scutil_value(big, key@),
{
    let kv = chars_of(key);
    let ghost f = scutil_rule(key@);
    proof {
        lemma_first_some_end(big, f);
    }
    let mut i: usize = 0;
    while i < ls.len()
        invariant
            kv@ == key@,
            f == scutil_rule(key@),
            ls@.len() == big.len(),
            forall|k: int| 0 <= k < ls@.len() ==> #[trigger] ls@[k]@ == big[k],
            i <= ls.len(),
            first_some(big, f) == first_some(big.skip(i as int), f),
        decreases ls.len() - i,
    {
        let found = scutil_line_chars(&kv, &ls[i]);
        proof {
            assert(ls@[i as int]@ == big[i as int]);
            lemma_first_some_step(big, f, i as int);
        }
        if found.is_some() {
            return found;
        }
        i = i + 1;
    }
    proof {
        lemma_first_some_end(big, f);
    }
    None
}

fn is_one(v: &Option<Vec<char>>) -> (r: bool)
    ensures
        r == (oview(*v) == Some("1"@)),
{
    let one = chars_of("1");
    match v {
        Some(x) => {
            if x.len() != one.len() {
                return false;
            }
            let mut k: usize = 0;
            while k < x.len()
                invariant
                    one@ == "1"@,
                    oview(*v) == Some(x@),
                    x.len() == one.len(),
                    k <= x.len(),
                    x@.take(k as int) == one@.take(k as int),
                decreases x.len() - k,
            {
                if x[k] != one[k] {
                    assert(x@[k as int] != one@[k as int]);
                    return false;
                }
                k = k + 1;
                assert(x@.take(k as int) =~= one@.take(k as int));
            }
            assert(x@ =~= x@.take(x.len() as int));
            assert(one@ =~= one@.take(x.len() as int));
            true
        },
        None => false,
    }
}

/// One proxy kind of `scutil --proxy`: enabled, with host and port.
fn scutil_entry(
    ls: &Vec<Vec<char>>,
    enable: &str,
    host_key: &str,
    port_key: &str,
    scheme: &str,
    Ghost(big): Ghost<Seq<Seq<char>>>,
) -> (r: Option<Vec<char>>)
    requires
        ls@.len() == big.len(),
        forall|k: int| 0 <= k < ls@.len() ==> #[trigger] ls@[k]@ == big[k],
    ensures
        scutil_enabled(big, enable@) && scutil_value(big, host_key@) is Some && scutil_value(
            big,
            port_key@,
        ) is Some ==> oview(r) == Some(
            proxy_url(scheme@, scutil_value(big, host_key@)->0, scutil_value(big, port_key@)->0),
        ),
        !(scutil_enabled(big, enable@) && scutil_value(big, host_key@) is Some && scutil_value(
            big,
            port_key@,
        ) is Some) ==> r is None,
{
    let en = scutil_value_chars(ls, enable, Ghost(big));
    if !is_one(&en) {
        return None;
    }
    let h = scutil_value_chars(ls, host_key, Ghost(big));
    let p = scutil_value_chars(ls, port_key, Ghost(big));
    match (h, p) {
        (Some(h), Some(p)) => {
            let r = cat(&chars_of(scheme), &h);
            let r = cat(&r, &chars_of(":"));
            Some(cat(&r, &p))
        },
        _ => None,
    }
}

/// The proxy that `scutil --proxy` output configures, if any.
pub fn scutil_proxy_of(text: &str) -> (r: Option<String>)
    ensures
        oview_string(r) == scutil_proxy(text@),
        (scutil_value(lines(text@), "SOCKSEnable"@) == Some("1"@) && scutil_value(lines(text@), "SOCKSProxy"@) is Some && scutil_value(lines(text@), "SOCKSPort"@) is Some) ==> oview_string(r) == Some("socks5h://"@ + scutil_value(lines(text@), "SOCKSProxy"@)->0 + ":"@ + scutil_value(lines(text@), "SOCKSPort"@)->0),
        !(scutil_value(lines(text@), "SOCKSEnable"@) == Some("1"@) && scutil_value(lines(text@), "SOCKSProxy"@) is Some && scutil_value(lines(text@), "SOCKSPort"@) is Some) && (scutil_value(lines(text@), "HTTPSEnable"@) == Some("1"@) && scutil_value(lines(text@), "HTTPSProxy"@) is Some && scutil_value(lines(text@), "HTTPSPort"@) is Some) ==> oview_string(r) == Some("http://"@ + scutil_value(lines(text@), "HTTPSProxy"@)->0 + ":"@ + scutil_value(lines(text@), "HTTPSPort"@)->0),
        !(scutil_value(lines(text@), "SOCKSEnable"@) == Some("1"@) && scutil_value(lines(text@), "SOCKSProxy"@) is Some && scutil_value(lines(text@), "SOCKSPort"@) is Some) && !(scutil_value(lines(text@), "HTTPSEnable"@) == Some("1"@) && scutil_value(lines(text@), "HTTPSProxy"@) is Some && scutil_value(lines(text@), "HTTPSPort"@) is Some) && (scutil_value(lines(text@), "HTTPEnable"@) == Some("1"@) && scutil_value(lines(text@), "HTTPProxy"@) is Some && scutil_value(lines(text@), "HTTPPort"@) is Some) ==> oview_string(r) == Some("http://"@ + scutil_value(lines(text@), "HTTPProxy"@)->0 + ":"@ + scutil_value(lines(text@), "HTTPPort"@)->0),
        !(scutil_value(lines(text@), "SOCKSEnable"@) == Some("1"@) && scutil_value(lines(text@), "SOCKSProxy"@) is Some && scutil_value(lines(text@), "SOCKSPort"@) is Some) && !(scutil_value(lines(text@), "HTTPSEnable"@) == Some("1"@) && scutil_value(lines(text@), "HTTPSProxy"@) is Some && scutil_value(lines(text@), "HTTPSPort"@) is Some) && !(scutil_value(lines(text@), "HTTPEnable"@) == Some("1"@) && scutil_value(lines(text@), "HTTPProxy"@) is Some && scutil_value(lines(text@), "HTTPPort"@) is Some) ==> r is None,
{
    let v = chars_of(text);
    let ls = lines_of(&v);
    let ghost big = lines(text@);
    let found = match scutil_entry(&ls, "SOCKSEnable", "SOCKSProxy", "SOCKSPort", "socks5h://", Ghost(big)) {
        Some(u) => Some(u),
        None => match scutil_entry(&ls, "HTTPSEnable", "HTTPSProxy", "HTTPSPort", "http://", Ghost(big)) {
            Some(u) => Some(u),
            None => scutil_entry(&ls, "HTTPEnable", "HTTPProxy", "HTTPPort", "http://", Ghost(big)),
        },
    };
    match found {
        Some(u) => Some(string_from_chars(&u)),
        None => None,
    }
}

/// Detect a usable proxy URL: the one `scutil --proxy` configures, when its
/// output is given (macOS) and shows one, else the one the environment
/// declares, else `None`.
pub fn detect(scutil_output: Option<&str>, env: &ProxyEnv) -> (r: Option<String>)
    ensures
        oview_string(r) == detect_spec(oview_str(scutil_output), *env),
        scutil_output matches Some(t) ==> (scutil_proxy(t@) is Some ==> oview_string(r)
            == scutil_proxy(t@)),
        scutil_output matches Some(t) ==> (scutil_proxy(t@) is None ==> oview_string(r)
            == env_proxy_spec(*env)),
        scutil_output is None ==> oview_string(r) == env_proxy_spec(*env),
{
    if let Some(t) = scutil_output {
        let p = scutil_proxy_of(t);
        if p.is_some() {
            return p;
        }
    }
    env_proxy(env)
}

/// The proxy variables in the order they are consulted: `ALL_PROXY`,
/// `all_proxy`, `HTTPS_PROXY`, `https_proxy`, `HTTP_PROXY`, `http_proxy`.
pub open spec fn proxy_vars(e: ProxyEnv) -> Seq<Option<String>> {
    seq![
        e.all_proxy,
        e.all_proxy_lower,
        e.https_proxy,
        e.https_proxy_lower,
        e.http_proxy,
        e.http_proxy_lower,
    ]
}

/// The environment's proxy is the first of the six variables that is set to
/// something; there is one exactly when some variable is.
pub proof fn law_env_first_nonempty(e: ProxyEnv)
    ensures
        env_proxy_spec(e) is Some <==> exists|k: int|
            0 <= k < 6 && (#[trigger] proxy_vars(e)[k] matches Some(x) && x@.len() > 0),
        env_proxy_spec(e) matches Some(v) ==> exists|k: int|
            0 <= k < 6 && (#[trigger] proxy_vars(e)[k] matches Some(x) && x@.len() > 0 && x@ == v)
                && forall|j: int|
                0 <= j < k ==> !(#[trigger] proxy_vars(e)[j] matches Some(y) && y@.len() > 0),
{
    let vs = proxy_vars(e);
    assert(vs[0] == e.all_proxy);
    assert(vs[1] == e.all_proxy_lower);
    assert(vs[2] == e.https_proxy);
    assert(vs[3] == e.https_proxy_lower);
    assert(vs[4] == e.http_proxy);
    assert(vs[5] == e.http_proxy_lower);
    if env_proxy_spec(e) is None {
        assert forall|k: int| 0 <= k < 6 implies !(#[trigger] vs[k] matches Some(x) && x@.len()
            > 0) by {
            if k == 0 {
            } else if k == 1 {
            } else if k == 2 {
            } else if k == 3 {
            } else if k == 4 {
            } else {
            }
        }
    }
}

/// Only `http_proxy` set: that is the proxy.
pub proof fn law_lone_http_proxy(e: ProxyEnv, v: String)
    requires
        e.all_proxy is None,
        e.all_proxy_lower is None,
        e.https_proxy is None,
        e.https_proxy_lower is None,
        e.http_proxy is None,
        e.http_proxy_lower == Some(v),
        v@.len() > 0,
    ensures
        env_proxy_spec(e) == Some(v@),
{
    law_env_first_nonempty(e);
    let k = choose|k: int|
        0 <= k < 6 && (#[trigger] proxy_vars(e)[k] matches Some(x) && x@.len() > 0 && x@
            == env_proxy_spec(e)->0) && forall|j: int|
            0 <= j < k ==> !(#[trigger] proxy_vars(e)[j] matches Some(y) && y@.len() > 0);
    assert(proxy_vars(e)[5] == e.http_proxy_lower);
    assert(proxy_vars(e)[5] matches Some(x) && x@.len() > 0);
}

/// `ALL_PROXY` (set to something) is used whatever the other variables say.
pub proof fn law_all_proxy_first(env: ProxyEnv)
    requires
        set_nonempty(env.all_proxy),
    ensures
        env_proxy_spec(env) == Some(env.all_proxy->0@),
        detect_spec(None, env) == Some(env.all_proxy->0@),
{
}

/// A variable set to the empty string counts as not set.
pub proof fn law_empty_variable_ignored(env: ProxyEnv)
    requires
        env.all_proxy matches Some(v) && v@.len() == 0,
    ensures
        env_proxy_spec(env) == env_proxy_spec(ProxyEnv { all_proxy: None, ..env }),
{
}

/// A system proxy that `scutil` shows wins over the environment.
pub proof fn law_system_proxy_wins(text: Seq<char>, env: ProxyEnv)
    requires
        scutil_proxy(text) is Some,
    ensures
        detect_spec(Some(text), env) == scutil_proxy(text),
{
}

/// With no proxy anywhere, the route is direct.
pub proof fn law_no_proxy_anywhere(text: Seq<char>, env: ProxyEnv)
    requires
        scutil_proxy(text) is None,
        env_proxy_spec(env) is None,
    ensures
        detect_spec(Some(text), env) is None,
        detect_spec(None, env) is None,
{
}

} // verus!
