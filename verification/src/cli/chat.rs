//! The interactive chat front end, as far as it decides anything: every
//! turn is still one ordinary execution through the same pipeline; this
//! adds routing by prefix, what a typed line means, and whether a merge
//! was confirmed. Reading lines and running turns is the caller's part.
use vstd::prelude::*;
use vstd::utf8::*;

use crate::text::{chars_of, copy_str, is_blank_str, lowercase, string_from_chars, to_lowercase, trim, trim_str};

verus! {

/// The code of `c` lower-cased, when it is an ASCII capital.
pub open spec fn ascii_lower(c: char) -> int {
    if 65 <= (c as int) <= 90 {
        (c as int) + 32
    } else {
        c as int
    }
}

/// `c` is ASCII and equals `p` once lower-cased.
pub open spec fn char_ci_eq(c: char, p: char) -> bool {
    (c as int) < 128 && ascii_lower(c) == (p as int)
}

/// The first `n` characters of `line` match those of `prefix`,
/// case-insensitively.
pub open spec fn prefix_ci_upto(line: Seq<char>, prefix: Seq<char>, n: int) -> bool
    decreases n,
{
    if n <= 0 {
        true
    } else {
        prefix_ci_upto(line, prefix, n - 1) && char_ci_eq(line[n - 1], prefix[n - 1])
    }
}

/// `line` starts, case-insensitively, with the ASCII `prefix` (its first
/// characters are all ASCII).
pub open spec fn prefix_ci(line: Seq<char>, prefix: Seq<char>) -> bool {
    line.len() >= prefix.len() && prefix_ci_upto(line, prefix, prefix.len() as int)
}

/// Where slicing the line at `n` bytes is well-defined: a byte slice
/// panics off a character boundary.
pub open spec fn cut_ok(line: Seq<char>, n: int) -> bool {
    encode_utf8(line).len() < n || is_char_boundary(encode_utf8(line), n)
}

/// Where routing the line never cuts a character in two: each prefix
/// checked in turn is cut at its own length.
pub open spec fn route_ok(line: Seq<char>) -> bool {
    cut_ok(line, 7) && (prefix_ci(line, "review:"@) || (cut_ok(line, 4) && (prefix_ci(line, "fix:"@) || cut_ok(
        line,
        8,
    ))))
}

/// A leading `review:`, `fix:` or `explain:` (in any case) picks that
/// capability, with the trimmed rest as the change request; anything else
/// is `implement` with the whole line. Plain string routing, never a
/// model's classification.
pub open spec fn routed(line: Seq<char>) -> (Seq<char>, Seq<char>) {
    if prefix_ci(line, "review:"@) {
        ("review"@, trim(line.skip(7)))
    } else if prefix_ci(line, "fix:"@) {
        ("fix"@, trim(line.skip(4)))
    } else if prefix_ci(line, "explain:"@) {
        ("explain"@, trim(line.skip(8)))
    } else {
        ("implement"@, line)
    }
}

fn char_matches(c: char, p: char) -> (r: bool)
    ensures
        r == char_ci_eq(c, p),
{
    let code = c as u32;
    let pc = p as u32;
    assert(code as int == c as int);
    assert(pc as int == p as int);
    if code >= 128 {
        return false;
    }
    let lower = if 65 <= code && code <= 90 { code + 32 } else { code };
    lower == pc
}

fn has_prefix_ci(v: &Vec<char>, prefix: &str) -> (r: bool)
    ensures
        r == prefix_ci(v@, prefix@),
{
    let p = chars_of(prefix);
    if v.len() < p.len() {
        return false;
    }
    let mut i: usize = 0;
    while i < p.len()
        invariant
            i <= p@.len(),
            p@ == prefix@,
            v@.len() >= p@.len(),
            prefix_ci_upto(v@, p@, i as int),
        decreases p@.len() - i,
    {
        if !char_matches(v[i], p[i]) {
            proof {
                if prefix_ci_upto(v@, p@, p@.len() as int) {
                    lemma_prefix_ci_upto_mono(v@, p@, i as int + 1, p@.len() as int);
                }
            }
            return false;
        }
        i = i + 1;
    }
    true
}

proof fn lemma_prefix_ci_upto_mono(line: Seq<char>, prefix: Seq<char>, m: int, n: int)
    requires
        0 <= m <= n,
        prefix_ci_upto(line, prefix, n),
    ensures
        prefix_ci_upto(line, prefix, m),
    decreases n - m,
{
    if m < n {
        lemma_prefix_ci_upto_mono(line, prefix, m, n - 1);
    }
}

pub fn route(line: &str) -> (r: (&'static str, String))
    requires
        route_ok(line@),
    ensures
        (r.0@, r.1@) == routed(line@),
{
    let v = chars_of(line);
    if has_prefix_ci(&v, "review:") {
        proof {
            reveal_strlit("review:");
        }
        let rest = crate::text::slice_range(v.as_slice(), 7, v.len());
        let t = trim_str(string_from_chars(rest.as_slice()).as_str());
        proof {
            assert(rest@ =~= line@.skip(7));
        }
        return ("review", t);
    }
    if has_prefix_ci(&v, "fix:") {
        proof {
            reveal_strlit("fix:");
        }
        let rest = crate::text::slice_range(v.as_slice(), 4, v.len());
        let t = trim_str(string_from_chars(rest.as_slice()).as_str());
        proof {
            assert(rest@ =~= line@.skip(4));
        }
        return ("fix", t);
    }
    if has_prefix_ci(&v, "explain:") {
        proof {
            reveal_strlit("explain:");
        }
        let rest = crate::text::slice_range(v.as_slice(), 8, v.len());
        let t = trim_str(string_from_chars(rest.as_slice()).as_str());
        proof {
            assert(rest@ =~= line@.skip(8));
        }
        return ("explain", t);
    }
    ("implement", copy_str(line))
}

/// What a line typed at the chat prompt asks for.
pub enum ChatInput {
    /// `exit` or `quit`, in any case.
    Quit,
    /// A blank line: ask again.
    Skip,
    /// An answer to the open gate of the paused execution.
    Decide(String),
    /// A new turn: the capability and the change request.
    Run(&'static str, String),
}

pub open spec fn eq_ignore_ascii_case(a: Seq<char>, b: Seq<char>) -> bool {
    a.len() == b.len() && prefix_ci(a, b)
}

/// The trimmed line: `exit`/`quit` end the session, a blank line is
/// skipped, and otherwise the line answers the paused execution's gate
/// when there is one, or starts a turn routed by its prefix.
pub open spec fn chat_input_spec(raw: Seq<char>, paused: bool, r: ChatInput) -> bool {
    let line = trim(raw);
    if eq_ignore_ascii_case(line, "exit"@) || eq_ignore_ascii_case(line, "quit"@) {
        r is Quit
    } else if line.len() == 0 {
        r is Skip
    } else if paused {
        r matches ChatInput::Decide(d) && d@ == line
    } else {
        r matches ChatInput::Run(c, t) && (c@, t@) == routed(line)
    }
}

/// Whether a typed line is `exit` or `quit`, in any case, once trimmed.
pub open spec fn quits(line: Seq<char>) -> bool {
    eq_ignore_ascii_case(line, "exit"@) || eq_ignore_ascii_case(line, "quit"@)
}

/// Where reading a typed line never cuts a character in two: only a line
/// that is routed (no pause, not `exit` or `quit`) is sliced.
pub open spec fn chat_line_ok(raw: Seq<char>, paused: bool) -> bool {
    !paused && !quits(trim(raw)) ==> route_ok(trim(raw))
}

fn cut_fits(line: &str, n: usize) -> (r: bool)
    ensures
        r == cut_ok(line@, n as int),
{
    let bytes = line.as_bytes();
    bytes.len() < n || line.is_char_boundary(n)
}

/// Whether [`chat_input`] can read `raw`: see [`chat_line_ok`].
pub fn chat_line_readable(raw: &str, paused: bool) -> (r: bool)
    ensures
        r == chat_line_ok(raw@, paused),
{
    if paused {
        return true;
    }
    let line = trim_str(raw);
    let v = chars_of(line.as_str());
    proof {
        reveal_strlit("exit");
        reveal_strlit("quit");
    }
    if (v.len() == 4 && has_prefix_ci(&v, "exit")) || (v.len() == 4 && has_prefix_ci(&v, "quit")) {
        return true;
    }
    cut_fits(line.as_str(), 7) && (has_prefix_ci(&v, "review:") || (cut_fits(line.as_str(), 4) && (
    has_prefix_ci(&v, "fix:") || cut_fits(line.as_str(), 8))))
}

pub fn chat_input(raw: &str, paused: bool) -> (r: ChatInput)
    requires
        chat_line_ok(raw@, paused),
    ensures
        chat_input_spec(raw@, paused, r),
{
    let line = trim_str(raw);
    let v = chars_of(line.as_str());
    if (v.len() == 4 && has_prefix_ci(&v, "exit")) || (v.len() == 4 && has_prefix_ci(&v, "quit")) {
        proof {
            reveal_strlit("exit");
            reveal_strlit("quit");
        }
        return ChatInput::Quit;
    }
    proof {
        reveal_strlit("exit");
        reveal_strlit("quit");
    }
    if v.len() == 0 {
        return ChatInput::Skip;
    }
    if paused {
        return ChatInput::Decide(line);
    }
    let (c, t) = route(line.as_str());
    ChatInput::Run(c, t)
}

/// Whether an answer to "merge?" confirms: `y`, `yes`, `j` or `ja`, after
/// trimming and lower-casing; anything else (end of input included)
/// declines, leaving the commit on its branch.
pub open spec fn confirms(answer: Seq<char>) -> bool {
    let a = lowercase(trim(answer));
    a == "y"@ || a == "yes"@ || a == "j"@ || a == "ja"@
}

pub fn is_confirmation(answer: &str) -> (r: bool)
    ensures
        r == confirms(answer@),
{
    let t = trim_str(answer);
    let a = to_lowercase(t.as_str());
    crate::text::str_eq(a.as_str(), "y") || crate::text::str_eq(a.as_str(), "yes") || crate::text::str_eq(
        a.as_str(),
        "j",
    ) || crate::text::str_eq(a.as_str(), "ja")
}

/// The chat banner.
pub fn banner() -> (r: &'static str)
    ensures
        r@ == "ksforge chat — describe a change in plain language.\nPrefix with 'review:', 'fix:', or 'explain:' to pick a capability other\nthan the default ('implement'). Type 'exit' to quit."@,
{
    "ksforge chat — describe a change in plain language.\nPrefix with 'review:', 'fix:', or 'explain:' to pick a capability other\nthan the default ('implement'). Type 'exit' to quit."
}

} // verus!
