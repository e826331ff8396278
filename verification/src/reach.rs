//! Reachability via TCP connect instead of ICMP.
//!
//! Raw ICMP (ping) needs root or admin; a TCP connect needs no privileges and
//! is a better reachability signal. A `ConnectionRefused` (RST) proves the
//! host is alive and routable — it answered — so it counts as reachable. Only
//! a timeout or another error means that the port is down, and a host is
//! reported down only when every port tried is.
//!
//! The caller makes the connects (racing a few ports) and hands the outcomes
//! here, in the order in which they finished.
use vstd::prelude::*;

use crate::text::{cat, chars_of, string_from_chars};

verus! {

/// Seconds a connect attempt may take before it counts as timed out.
pub const CONNECT_TIMEOUT_SECS: u64 = 2;

/// How one TCP connect attempt ended.
pub enum ConnectOutcome {
    /// The connection was established.
    Connected,
    /// The host answered with a reset: it is up, the port is closed.
    Refused,
    /// Another error; the text names its kind.
    Failed(String),
    /// No answer within the connect timeout.
    TimedOut,
}

/// The verdict on a host.
pub struct ReachResult {
    pub ok: bool,
    pub detail: String,
    pub ms: u128,
}

/// The host answered on this attempt.
pub open spec fn answered(o: ConnectOutcome) -> bool {
    o is Connected || o is Refused
}

/// The verdict of one attempt: `(ok, detail)`.
pub open spec fn attempt_verdict(o: ConnectOutcome) -> (bool, Seq<char>) {
    match o {
        ConnectOutcome::Connected => (true, "reachable"@),
        ConnectOutcome::Refused => (true, "reachable (port closed, host answered)"@),
        ConnectOutcome::Failed(kind) => (false, "unreachable ("@ + kind@ + ")"@),
        ConnectOutcome::TimedOut => (false, "unreachable or timed out"@),
    }
}

/// The first attempt at or after `i` on which the host answered, or -1.
pub open spec fn first_answer(s: Seq<ConnectOutcome>, i: int) -> int
    decreases s.len() - i,
{
    if i < 0 || i >= s.len() {
        -1
    } else if answered(s[i]) {
        i
    } else {
        first_answer(s, i + 1)
    }
}

/// The verdict of a race: the first attempt on which the host answered
/// decides; when it answered on none, the first attempt to finish does; with
/// no attempt at all the host counts as unreachable.
pub open spec fn race_verdict(s: Seq<ConnectOutcome>) -> (bool, Seq<char>) {
    if first_answer(s, 0) >= 0 {
        attempt_verdict(s[first_answer(s, 0)])
    } else if s.len() > 0 {
        attempt_verdict(s[0])
    } else {
        (false, "unreachable or timed out"@)
    }
}

pub proof fn lemma_first_answer(s: Seq<ConnectOutcome>, i: int)
    requires
        0 <= i,
    ensures
        first_answer(s, i) == -1 || (i <= first_answer(s, i) < s.len() && answered(
            s[first_answer(s, i)],
        )),
        first_answer(s, i) == -1 ==> forall|j: int| i <= j < s.len() ==> !answered(s[j]),
    decreases s.len() - i,
{
    if i < s.len() && !answered(s[i]) {
        lemma_first_answer(s, i + 1);
    }
}

impl ConnectOutcome {
    /// The host answered on this attempt (connected, or refused the port).
    pub fn is_answer(&self) -> (r: bool)
        ensures
            r == answered(*self),
    {
        match self {
            ConnectOutcome::Connected => true,
            ConnectOutcome::Refused => true,
            _ => false,
        }
    }
}

/// The verdict of one connect attempt that took `ms` milliseconds.
pub fn attempt_result(o: &ConnectOutcome, ms: u128) -> (r: ReachResult)
    ensures
        (r.ok, r.detail@) == attempt_verdict(*o),
        r.ms == ms,
        r.ok <==> (*o is Connected || *o is Refused),
        *o is Connected ==> r.detail@ == "reachable"@,
        *o is Refused ==> r.detail@ == "reachable (port closed, host answered)"@,
        *o is TimedOut ==> r.detail@ == "unreachable or timed out"@,
{
    let detail = match o {
        ConnectOutcome::Connected => chars_of("reachable"),
        ConnectOutcome::Refused => chars_of("reachable (port closed, host answered)"),
        ConnectOutcome::Failed(kind) => cat(
            &cat(&chars_of("unreachable ("), &chars_of(kind.as_str())),
            &chars_of(")"),
        ),
        ConnectOutcome::TimedOut => chars_of("unreachable or timed out"),
    };
    let ok = match o {
        ConnectOutcome::Connected => true,
        ConnectOutcome::Refused => true,
        _ => false,
    };
    ReachResult { ok, detail: string_from_chars(&detail), ms }
}

/// The verdict of connect attempts raced against one host, listed in the
/// order in which they finished, `ms` milliseconds in all.
pub fn race_result(outcomes: &Vec<ConnectOutcome>, ms: u128) -> (r: ReachResult)
    ensures
        (r.ok, r.detail@) == race_verdict(outcomes@),
        r.ms == ms,
        r.ok <==> exists|i: int|
            0 <= i < outcomes@.len() && (#[trigger] outcomes@[i] is Connected || outcomes@[i] is Refused),
        forall|k: int|
            0 <= k < outcomes@.len() && (forall|j: int|
                0 <= j < k ==> !(#[trigger] outcomes@[j] is Connected || outcomes@[j] is Refused))
                ==> (#[trigger] outcomes@[k] is Connected ==> r.detail@ == "reachable"@) && (
            outcomes@[k] is Refused ==> r.detail@ == "reachable (port closed, host answered)"@),
{
    proof {
        law_down_only_when_every_port_fails(outcomes@);
        law_first_answer_decides(outcomes@);
    }
    let mut i: usize = 0;
    while i < outcomes.len()
        invariant
            i <= outcomes.len(),
            first_answer(outcomes@, 0) == first_answer(outcomes@, i as int),
        decreases outcomes.len() - i,
    {
        if outcomes[i].is_answer() {
            proof {
                law_down_only_when_every_port_fails(outcomes@);
                law_first_answer_decides(outcomes@);
            }
            return attempt_result(&outcomes[i], ms);
        }
        i = i + 1;
    }
    if outcomes.len() > 0 {
        attempt_result(&outcomes[0], ms)
    } else {
        ReachResult {
            ok: false,
            detail: string_from_chars(&chars_of("unreachable or timed out")),
            ms,
        }
    }
}

/// A host is reachable exactly when it answered on some port — connected,
/// or refused the connection; it is down only when every attempt failed.
pub proof fn law_down_only_when_every_port_fails(s: Seq<ConnectOutcome>)
    ensures
        race_verdict(s).0 <==> exists|i: int|
            0 <= i < s.len() && (#[trigger] s[i] is Connected || s[i] is Refused),
{
    lemma_first_answer(s, 0);
    if first_answer(s, 0) >= 0 {
        let k = first_answer(s, 0);
        assert(answered(s[k]));
        assert(s[k] is Connected || s[k] is Refused);
    } else {
        assert forall|i: int| 0 <= i < s.len() implies !(#[trigger] s[i] is Connected
            || s[i] is Refused) by {
            assert(!answered(s[i]));
        }
        if s.len() > 0 {
            assert(!answered(s[0]));
        }
    }
}

proof fn lemma_first_answer_at(s: Seq<ConnectOutcome>, i: int, k: int)
    requires
        0 <= i <= k < s.len(),
        forall|j: int| i <= j < k ==> !(#[trigger] s[j] is Connected || s[j] is Refused),
        s[k] is Connected || s[k] is Refused,
    ensures
        first_answer(s, i) == k,
    decreases k - i,
{
    if i < k {
        assert(!(s[i] is Connected || s[i] is Refused));
        lemma_first_answer_at(s, i + 1, k);
    }
}

/// The first attempt on which the host answered decides the detail: a
/// connection reads "reachable", a refusal "reachable (port closed, host
/// answered)" — whatever the attempts after it.
pub proof fn law_first_answer_decides(s: Seq<ConnectOutcome>)
    ensures
        forall|k: int|
            0 <= k < s.len() && (forall|j: int|
                0 <= j < k ==> !(#[trigger] s[j] is Connected || s[j] is Refused)) ==> (
            #[trigger] s[k] is Connected ==> race_verdict(s) == (true, "reachable"@)) && (s[k] is Refused
                ==> race_verdict(s) == (true, "reachable (port closed, host answered)"@)),
{
    assert forall|k: int|
        0 <= k < s.len() && (forall|j: int|
            0 <= j < k ==> !(#[trigger] s[j] is Connected || s[j] is Refused)) implies (
    #[trigger] s[k] is Connected ==> race_verdict(s) == (true, "reachable"@)) && (s[k] is Refused
        ==> race_verdict(s) == (true, "reachable (port closed, host answered)"@)) by {
        if s[k] is Connected || s[k] is Refused {
            lemma_first_answer_at(s, 0, k);
        }
    }
}

/// A refused connection proves the host is up, and so does a connection.
pub proof fn law_refused_is_reachable()
    ensures
        attempt_verdict(ConnectOutcome::Refused).0,
        attempt_verdict(ConnectOutcome::Connected).0,
        race_verdict(seq![ConnectOutcome::Refused]).0,
{
    assert(first_answer(seq![ConnectOutcome::Refused], 0) == 0);
}

} // verus!
