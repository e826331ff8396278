//! Terminal colors and status formatting.
//!
//! ANSI escapes work on macOS/Linux terminals and on Windows 10+ terminals.
use vstd::prelude::*;

use crate::text::{cat, chars_of, pad_right, pad_right_chars, string_from_chars};

verus! {

pub const RED: &'static str = "\x1b[0;31m";

pub const GREEN: &'static str = "\x1b[0;32m";

pub const YELLOW: &'static str = "\x1b[1;33m";

pub const CYAN: &'static str = "\x1b[0;36m";

pub const RESET: &'static str = "\x1b[0m";

/// Width of the name column in a status line.
pub const NAME_WIDTH: usize = 30;

/// A single check result: name, verdict and a human detail string.
///
/// A result is PASS (`ok`), FAIL (not `ok`) or INFO (`info`: neither a pass
/// nor a failure, only something to know; such a result is `ok`). The tag of
/// a line is green `[PASS]`, red `[FAIL]` or cyan `[INFO]`.
pub struct Status {
    pub name: String,
    pub ok: bool,
    pub info: bool,
    pub detail: String,
}

/// The colored verdict tag of a status line.
pub open spec fn tag_text(ok: bool, info: bool) -> Seq<char> {
    if info {
        CYAN@ + "[INFO]"@ + RESET@
    } else if ok {
        GREEN@ + "[PASS]"@ + RESET@
    } else {
        RED@ + "[FAIL]"@ + RESET@
    }
}

/// `"  {tag} {name:<30} - {detail}"`.
pub open spec fn status_line(s: Status) -> Seq<char> {
    "  "@ + tag_text(s.ok, s.info) + " "@ + pad_right(s.name@, NAME_WIDTH as nat) + " - "@
        + s.detail@
}

impl Status {
    /// A PASS (`ok`) or FAIL result.
    pub fn new(name: String, ok: bool, detail: String) -> (s: Status)
        ensures
            s.name == name,
            s.ok == ok,
            !s.info,
            s.detail == detail,
    {
        Status { name, ok, info: false, detail }
    }

    /// An INFO result.
    pub fn info(name: String, detail: String) -> (s: Status)
        ensures
            s.name == name,
            s.ok,
            s.info,
            s.detail == detail,
    {
        Status { name, ok: true, info: true, detail }
    }

    /// The line that `print` writes for this result.
    pub fn render(&self) -> (line: String)
        ensures
            line@ == status_line(*self),
    {
        let tag = if self.info {
            cat(&cat(&chars_of(CYAN), &chars_of("[INFO]")), &chars_of(RESET))
        } else if self.ok {
            cat(&cat(&chars_of(GREEN), &chars_of("[PASS]")), &chars_of(RESET))
        } else {
            cat(&cat(&chars_of(RED), &chars_of("[FAIL]")), &chars_of(RESET))
        };
        let r = cat(&chars_of("  "), &tag);
        let r = cat(&r, &chars_of(" "));
        let r = cat(&r, &pad_right_chars(&chars_of(self.name.as_str()), NAME_WIDTH));
        let r = cat(&r, &chars_of(" - "));
        let r = cat(&r, &chars_of(self.detail.as_str()));
        string_from_chars(&r)
    }
}

/// The name column of a rendered line is never narrower than its width: a
/// name shorter than the column is padded with spaces, a longer one is kept
/// whole.
pub proof fn law_name_column_width(s: Status)
    ensures
        pad_right(s.name@, NAME_WIDTH as nat).len() >= NAME_WIDTH,
        pad_right(s.name@, NAME_WIDTH as nat).len() >= s.name@.len(),
        pad_right(s.name@, NAME_WIDTH as nat).subrange(0, s.name@.len() as int) == s.name@,
{
    let p = pad_right(s.name@, NAME_WIDTH as nat);
    assert(p.subrange(0, s.name@.len() as int) =~= s.name@);
}

} // verus!
