//! Deterministic, per-language heuristics behind the tests-only change
//! scope, checked by the host after ACT. Two checks, because not every
//! language keeps tests in dedicated files: a path may be a dedicated test
//! file or directory, or a file may show an inline-test marker (Rust's
//! colocated `#[cfg(test)]`, Python's test imports) after the change.
use vstd::prelude::*;

use crate::path::{components, components_of, extension, extension_of, file_name, file_name_of};
use crate::text::{
    chars_of, contains_seq, contains_str, ends_with, has_prefix_str, has_suffix_str, lowercase,
    starts_with, string_from_chars, to_lowercase,
};

verus! {

/// Directory names that mark everything below them as tests.
pub open spec fn is_test_dir_name(n: Seq<char>) -> bool {
    n == "tests"@ || n == "test"@ || n == "__tests__"@ || n == "spec"@ || n == "specs"@
}

/// File-name conventions for dedicated test files (on the lower-cased
/// name).
pub open spec fn is_test_file_name(n: Seq<char>) -> bool {
    ||| starts_with(n, "test_"@)
    ||| contains_seq(n, ".test."@)
    ||| contains_seq(n, ".spec."@)
    ||| ends_with(n, "_test.go"@)
    ||| ends_with(n, "_test.py"@)
    ||| ends_with(n, "_test.rs"@)
    ||| ends_with(n, "_tests.rs"@)
    ||| ends_with(n, "_spec.rb"@)
    ||| ends_with(n, "test.java"@)
    ||| ends_with(n, "tests.java"@)
    ||| ends_with(n, "test.cs"@)
    ||| ends_with(n, "tests.cs"@)
    ||| ends_with(n, "test.kt"@)
    ||| ends_with(n, "test.php"@)
}

/// A dedicated test path: some component is a test directory name, or the
/// file name follows a test-file convention (both compared lower-cased).
pub open spec fn test_path(p: Seq<char>) -> bool {
    ||| exists|i: int|
        0 <= i < components(p).len() && is_test_dir_name(lowercase(#[trigger] components(p)[i]))
    ||| (file_name(p) matches Some(n) && is_test_file_name(lowercase(n)))
}

/// A recognized inline-test marker for the file's extension.
pub open spec fn inline_test_marker(p: Seq<char>, content: Seq<char>) -> bool {
    match extension(p) {
        Some(e) => if e == "rs"@ {
            contains_seq(content, "#[cfg(test)]"@)
        } else if e == "py"@ {
            contains_seq(content, "import unittest"@) || contains_seq(content, "import pytest"@)
        } else {
            false
        },
        None => false,
    }
}

fn is_test_dir_name_exec(n: &str) -> (r: bool)
    ensures
        r == is_test_dir_name(n@),
{
    crate::text::str_eq(n, "tests") || crate::text::str_eq(n, "test") || crate::text::str_eq(
        n,
        "__tests__",
    ) || crate::text::str_eq(n, "spec") || crate::text::str_eq(n, "specs")
}

fn is_test_file_name_exec(n: &[char]) -> (r: bool)
    ensures
        r == is_test_file_name(n@),
{
    has_prefix_str(n, "test_") || contains_str(n, ".test.") || contains_str(n, ".spec.")
        || has_suffix_str(n, "_test.go") || has_suffix_str(n, "_test.py") || has_suffix_str(
        n,
        "_test.rs",
    ) || has_suffix_str(n, "_tests.rs") || has_suffix_str(n, "_spec.rb") || has_suffix_str(
        n,
        "test.java",
    ) || has_suffix_str(n, "tests.java") || has_suffix_str(n, "test.cs") || has_suffix_str(
        n,
        "tests.cs",
    ) || has_suffix_str(n, "test.kt") || has_suffix_str(n, "test.php")
}

/// Is this path a dedicated test file, or under a dedicated test directory,
/// by common per-language convention?
pub fn is_test_path(path: &str) -> (r: bool)
    ensures
        r == test_path(path@),
{
    let comps = components_of(path);
    let ghost cs = comps@.map_values(|c: Vec<char>| c@);
    let mut i: usize = 0;
    while i < comps.len()
        invariant
            i <= comps@.len(),
            cs == components(path@),
            cs == comps@.map_values(|c: Vec<char>| c@),
            forall|j: int| 0 <= j < i ==> !is_test_dir_name(lowercase(#[trigger] cs[j])),
        decreases comps@.len() - i,
    {
        let text = string_from_chars(comps[i].as_slice());
        let lower = to_lowercase(text.as_str());
        if is_test_dir_name_exec(lower.as_str()) {
            assert(cs[i as int] == comps@[i as int]@);
            return true;
        }
        i = i + 1;
    }
    match file_name_of(path) {
        None => false,
        Some(name) => {
            let text = string_from_chars(name.as_slice());
            let lower = to_lowercase(text.as_str());
            let lv = chars_of(lower.as_str());
            is_test_file_name_exec(lv.as_slice())
        },
    }
}

/// Does this file's content show a recognized inline-test marker for its
/// extension (checked after the change)?
pub fn has_inline_test_marker(path: &str, content: &str) -> (r: bool)
    ensures
        r == inline_test_marker(path@, content@),
{
    match extension_of(path) {
        None => false,
        Some(e) => {
            let text = string_from_chars(e.as_slice());
            let c = chars_of(content);
            if crate::text::str_eq(text.as_str(), "rs") {
                contains_str(c.as_slice(), "#[cfg(test)]")
            } else if crate::text::str_eq(text.as_str(), "py") {
                contains_str(c.as_slice(), "import unittest") || contains_str(
                    c.as_slice(),
                    "import pytest",
                )
            } else {
                false
            }
        },
    }
}

/// A changed path that breaks the tests-only scope: not a dedicated test
/// path and, read after the change, without an inline-test marker.
pub open spec fn violates(p: Seq<char>, content: Seq<char>) -> bool {
    !test_path(p) && !inline_test_marker(p, content)
}

/// The violating entries of `changed_files`, in order; `contents[i]` is
/// the content of `changed_files[i]` after the change (empty when the file
/// could not be read, so an unreadable non-test path is always flagged).
pub open spec fn violations_spec(files: Seq<Seq<char>>, contents: Seq<Seq<char>>) -> Seq<Seq<char>>
    decreases files.len(),
{
    if files.len() == 0 {
        seq![]
    } else {
        let rest = violations_spec(files.drop_last(), contents.take(files.len() - 1));
        if violates(files.last(), contents[files.len() - 1]) {
            rest.push(files.last())
        } else {
            rest
        }
    }
}

/// Every entry of `changed_files` that is neither a dedicated test path
/// nor a file with a recognized inline-test marker. Empty means the change
/// stayed within the tests-only scope.
pub fn violations(changed_files: &Vec<String>, contents: &Vec<String>) -> (r: Vec<String>)
    requires
        changed_files@.len() == contents@.len(),
    ensures
        r.deep_view() == violations_spec(changed_files.deep_view(), contents.deep_view()),
{
    let ghost fs = changed_files.deep_view();
    let ghost cs = contents.deep_view();
    let mut r: Vec<String> = Vec::new();
    let mut i: usize = 0;
    proof {
        assert(fs.take(0) =~= Seq::<Seq<char>>::empty());
    }
    while i < changed_files.len()
        invariant
            i <= changed_files@.len(),
            changed_files@.len() == contents@.len(),
            fs == changed_files.deep_view(),
            cs == contents.deep_view(),
            r.deep_view() == violations_spec(fs.take(i as int), cs.take(i as int)),
        decreases changed_files@.len() - i,
    {
        let ghost before = r.deep_view();
        let path = changed_files[i].as_str();
        let content = contents[i].as_str();
        let bad = !is_test_path(path) && !has_inline_test_marker(path, content);
        proof {
            let t = fs.take(i + 1);
            assert(t.drop_last() =~= fs.take(i as int));
            assert(cs.take(i + 1).take(i as int) =~= cs.take(i as int));
            assert(t.last() == changed_files@[i as int]@);
            assert(cs.take(i + 1)[i as int] == contents@[i as int]@);
        }
        if bad {
            r.push(changed_files[i].clone());
            proof {
                assert(r.deep_view() =~= before.push(fs[i as int]));
            }
        }
        i = i + 1;
    }
    proof {
        assert(fs.take(i as int) =~= fs);
        assert(cs.take(i as int) =~= cs);
    }
    r
}


// ---------------------------------------------------------------------
// Laws
// ---------------------------------------------------------------------

/// Each dedicated-test convention makes a path a test path: a directory
/// named `tests`, `test`, `__tests__`, `spec` or `specs` anywhere on it,
/// or a file name (compared lower-cased) that starts with `test_`,
/// contains `.test.` or `.spec.`, or ends in one of the test-file
/// suffixes of Go, Python, Rust, Ruby, Java, C#, Kotlin or PHP.
pub proof fn lemma_test_conventions_are_test_paths(p: Seq<char>)
    ensures
        (exists|i: int| 0 <= i < components(p).len() && {
            let d = lowercase(#[trigger] components(p)[i]);
            d == "tests"@ || d == "test"@ || d == "__tests__"@ || d == "spec"@ || d == "specs"@
        }) ==> test_path(p),
        file_name(p) matches Some(n) ==> ({
            let l = lowercase(n);
            ||| starts_with(l, "test_"@)
            ||| contains_seq(l, ".test."@)
            ||| contains_seq(l, ".spec."@)
            ||| ends_with(l, "_test.go"@)
            ||| ends_with(l, "_test.py"@)
            ||| ends_with(l, "_test.rs"@)
            ||| ends_with(l, "_tests.rs"@)
            ||| ends_with(l, "_spec.rb"@)
            ||| ends_with(l, "test.java"@)
            ||| ends_with(l, "tests.java"@)
            ||| ends_with(l, "test.cs"@)
            ||| ends_with(l, "tests.cs"@)
            ||| ends_with(l, "test.kt"@)
            ||| ends_with(l, "test.php"@)
        } ==> test_path(p)),
{
}

/// `x` is one of `files` that is neither a dedicated test path nor, with
/// its content after the change, a file with an inline-test marker.
pub open spec fn out_of_scope_among(files: Seq<Seq<char>>, contents: Seq<Seq<char>>, x: Seq<char>) -> bool {
    exists|j: int|
        0 <= j < files.len() && files[j] == x && !test_path(files[j]) && !inline_test_marker(
            files[j],
            #[trigger] contents[j],
        )
}

/// Every changed file the tests-only check reports is one it had to: a
/// path that is neither a dedicated test path nor, after the change, a
/// file with a recognized inline-test marker; and each of the changed
/// files it reports is one of the files it was given.
pub proof fn lemma_violations_are_non_test_files(files: Seq<Seq<char>>, contents: Seq<Seq<char>>)
    requires
        files.len() == contents.len(),
    ensures
        forall|k: int|
            0 <= k < violations_spec(files, contents).len() ==> out_of_scope_among(
                files,
                contents,
                #[trigger] violations_spec(files, contents)[k],
            ),
    decreases files.len(),
{
    if files.len() > 0 {
        let n = files.len() - 1;
        let fs = files.drop_last();
        let cs = contents.take(n as int);
        lemma_violations_are_non_test_files(fs, cs);
        let rest = violations_spec(fs, cs);
        let v = violations_spec(files, contents);
        assert forall|k: int| 0 <= k < v.len() implies out_of_scope_among(files, contents, #[trigger] v[k]) by {
            if k < rest.len() {
                assert(v[k] == rest[k]);
                assert(out_of_scope_among(fs, cs, rest[k]));
                let j = choose|j: int|
                    0 <= j < fs.len() && fs[j] == rest[k] && !test_path(fs[j]) && !inline_test_marker(
                        fs[j],
                        #[trigger] cs[j],
                    );
                assert(files[j] == fs[j] && contents[j] == cs[j]);
                assert(inline_test_marker(files[j], contents[j]) == inline_test_marker(fs[j], cs[j]));
            } else {
                assert(v[k] == files[n]);
                assert(inline_test_marker(files[n], contents[n]) == inline_test_marker(files[n], contents[n]));
            }
        }
    }
}

/// So a file whose lower-cased name ends in `_test.py` (or follows any
/// other test-file convention) is never reported as outside the
/// tests-only scope, whatever it contains.
pub proof fn lemma_python_test_files_are_in_scope(files: Seq<Seq<char>>, contents: Seq<Seq<char>>, k: int)
    requires
        files.len() == contents.len(),
        0 <= k < violations_spec(files, contents).len(),
    ensures
        !(file_name(violations_spec(files, contents)[k]) matches Some(n) && ends_with(lowercase(n), "_test.py"@)),
{
    lemma_violations_are_non_test_files(files, contents);
    let x = violations_spec(files, contents)[k];
    assert(out_of_scope_among(files, contents, x));
    lemma_test_conventions_are_test_paths(x);
}


/// A file with a recognized inline-test marker after the change stays in
/// scope: a Rust file containing `#[cfg(test)]`, a Python file importing
/// `unittest` or `pytest`; so does any dedicated test path.
pub proof fn lemma_inline_tests_stay_in_scope(p: Seq<char>, content: Seq<char>)
    ensures
        extension(p) == Some("rs"@) && contains_seq(content, "#[cfg(test)]"@) ==> !violates(p, content),
        extension(p) == Some("py"@) && (contains_seq(content, "import unittest"@) || contains_seq(
            content,
            "import pytest"@,
        )) ==> !violates(p, content),
        test_path(p) ==> !violates(p, content),
{
    reveal_strlit("rs");
    reveal_strlit("py");
    assert("py"@[0] != "rs"@[0]);
    assert("py"@ != "rs"@);
}

} // verus!
