//! Dry-run isolation, as far as it is a rule on paths: which directories
//! a copy skips (the same as a snapshot's), and the one place the
//! Windows extended-length prefix is removed from a working directory.
//! Copying the tree is the caller's part.
use vstd::prelude::*;

use crate::text::{chars_of, copy_str, push_str, starts_with, string_from_chars};

verus! {

/// `\\?\UNC\server\share` becomes `\\server\share`; `\\?\C:\dir` becomes
/// `C:\dir`; anything else is unchanged. `canonicalize` on Windows hands
/// out the verbatim form, which an agent's sandbox treats as suspicious;
/// every working directory an agent is given, and every "Workspace:" a
/// prompt states, goes through here.
pub open spec fn stripped(p: Seq<char>) -> Seq<char> {
    if starts_with(p, "\\\\?\\UNC\\"@) {
        "\\\\"@ + p.skip(8)
    } else if starts_with(p, "\\\\?\\"@) {
        p.skip(4)
    } else {
        p
    }
}

/// `std::path::is_separator`: whether `c` separates path components on
/// this platform. Which platform the program was built for decides; nothing
/// is claimed.
#[verifier::external_body]
fn is_path_separator(c: char) -> (r: bool) {
    std::path::is_separator(c)
}

/// The verbatim prefix removed on Windows (where `\\` separates path
/// components), and `path` unchanged on any other platform. Which platform
/// the program runs on is not stated: the result is one of the two, as
/// [`strip_verbatim_prefix_on`] gives it.
pub fn strip_windows_verbatim_prefix(path: String) -> (r: String)
    ensures
        r@ == path@ || r@ == stripped(path@),
{
    let windows = is_path_separator('\\');
    strip_verbatim_prefix_on(path, windows)
}

/// [`strip_windows_verbatim_prefix`] for a given platform: stripped where
/// `windows`, untouched elsewhere.
pub fn strip_verbatim_prefix_on(path: String, windows: bool) -> (r: String)
    ensures
        r@ == (if windows {
            stripped(path@)
        } else {
            path@
        }),
{
    if !windows {
        return path;
    }
    let v = chars_of(path.as_str());
    if crate::text::has_prefix_str(v.as_slice(), "\\\\?\\UNC\\") {
        proof {
            reveal_strlit("\\\\?\\UNC\\");
        }
        let rest = crate::text::slice_range(v.as_slice(), 8, v.len());
        let mut r = copy_str("\\\\");
        let t = string_from_chars(rest.as_slice());
        push_str(&mut r, t.as_str());
        proof {
            assert(rest@ =~= path@.skip(8));
        }
        r
    } else if crate::text::has_prefix_str(v.as_slice(), "\\\\?\\") {
        proof {
            reveal_strlit("\\\\?\\");
        }
        let rest = crate::text::slice_range(v.as_slice(), 4, v.len());
        proof {
            assert(rest@ =~= path@.skip(4));
        }
        string_from_chars(rest.as_slice())
    } else {
        path
    }
}

} // verus!
