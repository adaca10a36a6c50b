//! The first layer of VALIDATE: exact, user-authored shell commands, run
//! in order after ACT and stopped at the first failure. Commands come
//! from the user or project, never from the agent. Running them is the
//! caller's part; what each run records is here.
use vstd::prelude::*;
use vstd::utf8::*;

use crate::domain::execution::ValidationCommandOutcome;
use crate::text::{copy_str, push_str};

verus! {

/// How much of a command's combined output is kept.
pub const OUTPUT_TAIL_BYTES: usize = 4000;

/// Whether keeping the last `max` bytes of `s` is well-defined: the cut
/// must land on a character boundary.
pub open spec fn tail_cut_ok(s: Seq<char>, max: int) -> bool {
    encode_utf8(s).len() <= max || is_char_boundary(encode_utf8(s), encode_utf8(s).len() - max)
}

/// `s` when it fits in `max` bytes, else a `...[truncated]...` marker
/// followed by its last `max` bytes.
pub open spec fn byte_tail(s: Seq<char>, max: int) -> Seq<char> {
    let b = encode_utf8(s);
    if b.len() <= max {
        s
    } else {
        "...[truncated]..."@ + decode_utf8(b.skip(b.len() - max))
    }
}

pub fn tail(s: &str, max: usize) -> (r: String)
    requires
        tail_cut_ok(s@, max as int),
    ensures
        r@ == byte_tail(s@, max as int),
{
    let n = s.as_bytes().len();
    if n <= max {
        copy_str(s)
    } else {
        let (_a, b) = s.split_at(n - max);
        proof {
            encode_utf8_decode_utf8(b@);
            assert(encode_utf8(s@).skip(n - max) =~= encode_utf8(s@).subrange(n - max, n as int));
        }
        let mut r = copy_str("...[truncated]...");
        push_str(&mut r, b);
        r
    }
}

/// The record of one command run: its text, whether it exited
/// successfully, and the tail of its stdout followed by its stderr.
pub fn command_outcome(command: &str, passed: bool, output: &str) -> (r: ValidationCommandOutcome)
    requires
        tail_cut_ok(output@, OUTPUT_TAIL_BYTES as int),
    ensures
        r.command@ == command@,
        r.passed == passed,
        r.output_tail@ == byte_tail(output@, OUTPUT_TAIL_BYTES as int),
{
    ValidationCommandOutcome {
        command: copy_str(command),
        passed,
        output_tail: tail(output, OUTPUT_TAIL_BYTES),
    }
}

} // verus!
