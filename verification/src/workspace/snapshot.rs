//! Which files an agent turn touched, from content digests taken before
//! and after it: filesystem bytes are the ground truth, never the agent's
//! own claim. Walking the tree and reading the files is the caller's
//! part; the digest, the directories skipped and the comparison are here.
use vstd::prelude::*;

use crate::path::{components, components_of};
use crate::text::{chars_of, push_char, str_eq};
use sha2::Digest;

verus! {

/// Directories never worth hashing: VCS metadata, ksforge's own state,
/// and build or dependency output.
pub open spec fn ignored_dir(name: Seq<char>) -> bool {
    ||| name == ".git"@
    ||| name == ".ksforge"@
    ||| name == "target"@
    ||| name == "node_modules"@
    ||| name == "dist"@
    ||| name == "build"@
}

pub fn is_ignored_dir(name: &str) -> (r: bool)
    ensures
        r == ignored_dir(name@),
{
    str_eq(name, ".git") || str_eq(name, ".ksforge") || str_eq(name, "target") || str_eq(
        name,
        "node_modules",
    ) || str_eq(name, "dist") || str_eq(name, "build")
}

/// The SHA-256 digest of some bytes.
pub uninterp spec fn sha256(bytes: Seq<u8>) -> Seq<u8>;

/// `sha2::Sha256::digest`. Claims that the digest is a function of the
/// bytes, named `sha256`, and that it is 32 bytes long, as SHA-256 is.
#[verifier::external_body]
fn sha256_digest(bytes: &[u8]) -> (r: Vec<u8>)
    ensures
        r@ == sha256(bytes@),
        r@.len() == 32,
{
    sha2::Sha256::digest(bytes).to_vec()
}

pub open spec fn hex_digit(n: u8) -> char
    recommends
        n < 16,
{
    if n < 10 {
        (('0' as u8) + n) as char
    } else {
        (('a' as u8) + n - 10) as char
    }
}

/// Each byte as two lower-case hex digits, high nibble first.
pub open spec fn hex_of(bytes: Seq<u8>) -> Seq<char>
    decreases bytes.len(),
{
    if bytes.len() == 0 {
        seq![]
    } else {
        hex_of(bytes.drop_last()) + seq![hex_digit(bytes.last() / 16), hex_digit(bytes.last() % 16)]
    }
}

fn hex_char(n: u8) -> (r: char)
    requires
        n < 16,
    ensures
        r == hex_digit(n),
{
    let digits = chars_of("0123456789abcdef");
    proof {
        reveal_strlit("0123456789abcdef");
        assert(digits@[n as int] == hex_digit(n));
    }
    digits[n as usize]
}

/// The SHA-256 digest of `bytes` in lower-case hex, as a snapshot records
/// a file's content.
pub fn digest_hex(bytes: &[u8]) -> (r: String)
    ensures
        r@ == hex_of(sha256(bytes@)),
{
    let d = sha256_digest(bytes);
    let mut s = String::new();
    let mut i: usize = 0;
    while i < d.len()
        invariant
            i <= d@.len(),
            s@ == hex_of(d@.take(i as int)),
        decreases d@.len() - i,
    {
        let b = d[i];
        push_char(&mut s, hex_char(b / 16));
        push_char(&mut s, hex_char(b % 16));
        proof {
            assert(d@.take(i + 1).drop_last() =~= d@.take(i as int));
            assert(d@.take(i + 1).last() == b);
        }
        i = i + 1;
    }
    proof {
        assert(d@.take(d@.len() as int) =~= d@);
    }
    s
}

// ---------------------------------------------------------------------
// Path order
// ---------------------------------------------------------------------

/// Lexicographic order on number sequences (a proper prefix is smaller).
pub open spec fn lex_lt(a: Seq<u64>, b: Seq<u64>) -> bool
    decreases a.len(),
{
    if a.len() == 0 {
        b.len() > 0
    } else if b.len() == 0 {
        false
    } else if a[0] < b[0] {
        true
    } else if a[0] > b[0] {
        false
    } else {
        lex_lt(a.drop_first(), b.drop_first())
    }
}

pub proof fn lemma_lex_trans(a: Seq<u64>, b: Seq<u64>, c: Seq<u64>)
    requires
        lex_lt(a, b),
        lex_lt(b, c),
    ensures
        lex_lt(a, c),
    decreases a.len(),
{
    if a.len() > 0 && b.len() > 0 && c.len() > 0 && a[0] == b[0] && b[0] == c[0] {
        lemma_lex_trans(a.drop_first(), b.drop_first(), c.drop_first());
    }
}

pub proof fn lemma_lex_total(a: Seq<u64>, b: Seq<u64>)
    ensures
        a == b || lex_lt(a, b) || lex_lt(b, a),
    decreases a.len(),
{
    if a.len() > 0 && b.len() > 0 && a[0] == b[0] {
        lemma_lex_total(a.drop_first(), b.drop_first());
        if a.drop_first() == b.drop_first() {
            assert(a =~= seq![a[0]] + a.drop_first());
            assert(b =~= seq![b[0]] + b.drop_first());
        }
    } else if a.len() == 0 && b.len() == 0 {
        assert(a =~= b);
    }
}

pub proof fn lemma_lex_irrefl(a: Seq<u64>)
    ensures
        !lex_lt(a, a),
    decreases a.len(),
{
    if a.len() > 0 {
        lemma_lex_irrefl(a.drop_first());
    }
}

pub proof fn lemma_lex_asym(a: Seq<u64>, b: Seq<u64>)
    requires
        lex_lt(a, b),
    ensures
        !lex_lt(b, a),
{
    if lex_lt(b, a) {
        lemma_lex_trans(a, b, a);
        lemma_lex_irrefl(a);
    }
}

/// Each component's characters, shifted up by one, followed by a `0`:
/// comparing these keys compares paths component by component, the way
/// `Path`'s order does.
pub open spec fn component_key(cs: Seq<Seq<char>>) -> Seq<u64>
    decreases cs.len(),
{
    if cs.len() == 0 {
        seq![]
    } else {
        component_key(cs.drop_last()) + cs.last().map_values(|c: char| ((c as u32) as u64 + 1) as u64) + seq![0u64]
    }
}

pub open spec fn path_key(p: Seq<char>) -> Seq<u64> {
    component_key(components(p))
}

/// `a` orders before `b` as paths.
pub open spec fn path_lt(a: Seq<char>, b: Seq<char>) -> bool {
    lex_lt(path_key(a), path_key(b))
}

pub(crate) fn key_of(p: &str) -> (r: Vec<u64>)
    ensures
        r@ == path_key(p@),
{
    let cs = components_of(p);
    let ghost cv = cs@.map_values(|c: Vec<char>| c@);
    let mut r: Vec<u64> = Vec::new();
    let mut i: usize = 0;
    while i < cs.len()
        invariant
            i <= cs@.len(),
            cv == cs@.map_values(|c: Vec<char>| c@),
            cv == components(p@),
            r@ == component_key(cv.take(i as int)),
        decreases cs@.len() - i,
    {
        let c = &cs[i];
        let ghost before = r@;
        let mut j: usize = 0;
        while j < c.len()
            invariant
                j <= c@.len(),
                r@ == before + c@.take(j as int).map_values(|x: char| ((x as u32) as u64 + 1) as u64),
            decreases c@.len() - j,
        {
            let x = (c[j] as u32) as u64;
            r.push(x + 1);
            proof {
                assert(c@.take(j + 1).map_values(|x: char| ((x as u32) as u64 + 1) as u64) =~= c@.take(
                    j as int,
                ).map_values(|x: char| ((x as u32) as u64 + 1) as u64).push(((c@[j as int] as u32) as u64 + 1) as u64));
            }
            j = j + 1;
        }
        r.push(0u64);
        proof {
            assert(c@.take(j as int) =~= c@);
            assert(cv.take(i + 1).drop_last() =~= cv.take(i as int));
            assert(cv.take(i + 1).last() == c@);
            assert(r@ =~= component_key(cv.take(i + 1)));
        }
        i = i + 1;
    }
    proof {
        assert(cv.take(i as int) =~= cv);
    }
    r
}

pub(crate) fn key_lt(a: &Vec<u64>, b: &Vec<u64>) -> (r: bool)
    ensures
        r == lex_lt(a@, b@),
{
    let mut i: usize = 0;
    proof {
        assert(a@.skip(0) =~= a@);
        assert(b@.skip(0) =~= b@);
    }
    while i < a.len() && i < b.len() && a[i] == b[i]
        invariant
            i <= a@.len(),
            i <= b@.len(),
            lex_lt(a@, b@) == lex_lt(a@.skip(i as int), b@.skip(i as int)),
        decreases a@.len() - i,
    {
        proof {
            let (x, y) = (a@.skip(i as int), b@.skip(i as int));
            assert(x.drop_first() =~= a@.skip(i + 1));
            assert(y.drop_first() =~= b@.skip(i + 1));
        }
        i = i + 1;
    }
    if i == a.len() {
        i < b.len()
    } else if i == b.len() {
        false
    } else {
        a[i] < b[i]
    }
}

// ---------------------------------------------------------------------
// Snapshots
// ---------------------------------------------------------------------

/// The digest of every file under a root, keyed by path relative to the
/// root, in path order with no path twice.
pub struct Snapshot {
    entries: Vec<(String, String)>,
}

pub open spec fn sorted_paths(s: Seq<(Seq<char>, Seq<char>)>) -> bool {
    forall|i: int, j: int| 0 <= i < j < s.len() ==> path_lt(#[trigger] s[i].0, #[trigger] s[j].0)
}

impl View for Snapshot {
    type V = Seq<(Seq<char>, Seq<char>)>;

    closed spec fn view(&self) -> Seq<(Seq<char>, Seq<char>)> {
        self.entries.deep_view()
    }
}

impl Snapshot {
    pub closed spec fn wf(&self) -> bool {
        sorted_paths(self@)
    }

    /// The snapshot of `entries` (path, digest), which must come in path
    /// order with no path twice, as a sorted map hands them out; `None`
    /// otherwise.
    pub fn from_entries(entries: Vec<(String, String)>) -> (r: Option<Snapshot>)
        ensures
            r is Some <==> sorted_paths(entries.deep_view()),
            r matches Some(s) ==> s@ == entries.deep_view() && s.wf(),
    {
        let ghost v = entries.deep_view();
        let mut i: usize = 1;
        if entries.len() > 1 {
            let mut prev = key_of(entries[0].0.as_str());
            while i < entries.len()
                invariant
                    1 <= i <= entries@.len(),
                    v == entries.deep_view(),
                    prev@ == path_key(v[i - 1].0),
                    forall|a: int, b: int| 0 <= a < b < i ==> path_lt(#[trigger] v[a].0, #[trigger] v[b].0),
                decreases entries@.len() - i,
            {
                let k = key_of(entries[i].0.as_str());
                if !key_lt(&prev, &k) {
                    proof {
                        assert(!path_lt(v[i - 1].0, v[i as int].0));
                        assert(!sorted_paths(v));
                    }
                    return None;
                }
                proof {
                    assert forall|a: int, b: int| 0 <= a < b < i + 1 implies path_lt(#[trigger] v[a].0, #[trigger] v[b].0) by {
                        if b == i && a < i - 1 {
                            lemma_lex_trans(path_key(v[a].0), path_key(v[i - 1].0), path_key(v[b].0));
                        }
                    }
                }
                prev = k;
                i = i + 1;
            }
        }
        Some(Snapshot { entries })
    }

    pub fn entries(&self) -> (r: &Vec<(String, String)>)
        ensures
            r.deep_view() == self@,
    {
        &self.entries
    }
}

/// The digest a snapshot records under the path key `k`.
pub open spec fn digest_at(s: Seq<(Seq<char>, Seq<char>)>, k: Seq<u64>) -> Option<Seq<char>> {
    if exists|i: int| 0 <= i < s.len() && path_key(s[i].0) == k {
        Some(s[choose|i: int| 0 <= i < s.len() && path_key(s[i].0) == k].1)
    } else {
        None
    }
}

/// A file changed between two snapshots: added, modified or deleted.
pub open spec fn changed_key(before: Seq<(Seq<char>, Seq<char>)>, after: Seq<(Seq<char>, Seq<char>)>, k: Seq<u64>) -> bool {
    digest_at(before, k) != digest_at(after, k)
}

pub open spec fn has_path(s: Seq<(Seq<char>, Seq<char>)>, p: Seq<char>) -> bool {
    exists|i: int| 0 <= i < s.len() && s[i].0 == p
}

proof fn lemma_digest_at(s: Seq<(Seq<char>, Seq<char>)>, i: int)
    requires
        sorted_paths(s),
        0 <= i < s.len(),
    ensures
        digest_at(s, path_key(s[i].0)) == Some(s[i].1),
{
    let k = path_key(s[i].0);
    let j = choose|j: int| 0 <= j < s.len() && path_key(s[j].0) == k;
    if j != i {
        if j < i {
            assert(path_lt(s[j].0, s[i].0));
        } else {
            assert(path_lt(s[i].0, s[j].0));
        }
        lemma_lex_irrefl(k);
    }
}

proof fn lemma_digest_absent(s: Seq<(Seq<char>, Seq<char>)>, k: Seq<u64>, lo: int)
    requires
        sorted_paths(s),
        0 <= lo <= s.len(),
        forall|j: int| 0 <= j < lo ==> lex_lt(path_key(#[trigger] s[j].0), k),
        lo < s.len() ==> lex_lt(k, path_key(s[lo].0)),
    ensures
        digest_at(s, k) is None,
{
    if exists|i: int| 0 <= i < s.len() && path_key(s[i].0) == k {
        let i = choose|i: int| 0 <= i < s.len() && path_key(s[i].0) == k;
        if i < lo {
            lemma_lex_irrefl(k);
        } else if i == lo {
            lemma_lex_irrefl(k);
        } else {
            assert(path_lt(s[lo].0, s[i].0));
            lemma_lex_asym(k, path_key(s[lo].0));
        }
    }
}

/// The snapshot keys seen so far all order before what remains.
pub open spec fn merged_upto(
    before: Seq<(Seq<char>, Seq<char>)>,
    after: Seq<(Seq<char>, Seq<char>)>,
    r: Seq<Seq<char>>,
    i: int,
    j: int,
) -> bool {
    &&& forall|x: int, y: int| 0 <= x < y < r.len() ==> path_lt(#[trigger] r[x], #[trigger] r[y])
    &&& forall|x: int| 0 <= x < r.len() ==> (has_path(before, #[trigger] r[x]) || has_path(after, r[x]))
        && changed_key(before, after, path_key(r[x]))
    &&& forall|x: int| 0 <= x < i && changed_key(before, after, path_key(#[trigger] before[x].0))
        ==> exists|y: int| 0 <= y < r.len() && path_key(r[y]) == path_key(before[x].0)
    &&& forall|x: int| 0 <= x < j && changed_key(before, after, path_key(#[trigger] after[x].0))
        ==> exists|y: int| 0 <= y < r.len() && path_key(r[y]) == path_key(after[x].0)
    &&& forall|x: int, y: int| 0 <= x < r.len() && i <= y < before.len() ==> path_lt(#[trigger] r[x], #[trigger] before[y].0)
    &&& forall|x: int, y: int| 0 <= x < r.len() && j <= y < after.len() ==> path_lt(#[trigger] r[x], #[trigger] after[y].0)
    &&& forall|x: int, y: int| 0 <= x < i && j <= y < after.len() ==> path_lt(#[trigger] before[x].0, #[trigger] after[y].0)
    &&& forall|x: int, y: int| 0 <= x < j && i <= y < before.len() ==> path_lt(#[trigger] after[x].0, #[trigger] before[y].0)
}

/// A tree compared with itself shows no change, and a change shows both
/// ways: a path differs from `a` to `b` exactly when it differs from `b`
/// to `a`.
pub proof fn lemma_changes_are_symmetric(a: Seq<(Seq<char>, Seq<char>)>, b: Seq<(Seq<char>, Seq<char>)>, k: Seq<u64>)
    ensures
        !changed_key(a, a, k),
        changed_key(a, b, k) == changed_key(b, a, k),
{
}

/// `changed` lists, in path order and each once, exactly the paths whose
/// digest differs between the two snapshots.
pub open spec fn lists_changes(
    before: Seq<(Seq<char>, Seq<char>)>,
    after: Seq<(Seq<char>, Seq<char>)>,
    changed: Seq<Seq<char>>,
) -> bool {
    &&& forall|x: int, y: int| 0 <= x < y < changed.len() ==> path_lt(#[trigger] changed[x], #[trigger] changed[y])
    &&& forall|x: int| 0 <= x < changed.len() ==> (has_path(before, #[trigger] changed[x]) || has_path(after, changed[x]))
        && changed_key(before, after, path_key(changed[x]))
    &&& forall|k: Seq<u64>| #[trigger] changed_key(before, after, k) ==> exists|y: int| 0 <= y < changed.len() && path_key(changed[y]) == k
}

/// `x` is strictly in path order.
pub open spec fn path_sorted(x: Seq<Seq<char>>) -> bool {
    forall|i: int, j: int| 0 <= i < j < x.len() ==> path_lt(#[trigger] x[i], #[trigger] x[j])
}

/// Some path of `y` has the key `k`.
pub open spec fn has_key(y: Seq<Seq<char>>, k: Seq<u64>) -> bool {
    exists|j: int| 0 <= j < y.len() && path_key(#[trigger] y[j]) == k
}

/// Every path of `x` has its key among `y`'s.
pub open spec fn keys_within(x: Seq<Seq<char>>, y: Seq<Seq<char>>) -> bool {
    forall|i: int| 0 <= i < x.len() ==> has_key(y, path_key(#[trigger] x[i]))
}

proof fn lemma_first_keys_agree(x: Seq<Seq<char>>, y: Seq<Seq<char>>)
    requires
        path_sorted(x),
        path_sorted(y),
        keys_within(x, y),
        keys_within(y, x),
        x.len() > 0,
        y.len() > 0,
    ensures
        path_key(x[0]) == path_key(y[0]),
{
    let kx = path_key(x[0]);
    let ky = path_key(y[0]);
    assert(has_key(y, path_key(x[0])));
    assert(has_key(x, path_key(y[0])));
    let j = choose|j: int| 0 <= j < y.len() && path_key(y[j]) == path_key(x[0]);
    let i = choose|i: int| 0 <= i < x.len() && path_key(x[i]) == path_key(y[0]);
    if j > 0 {
        assert(path_lt(y[0], y[j]));
        if i > 0 {
            assert(path_lt(x[0], x[i]));
            lemma_lex_trans(ky, kx, ky);
        }
        lemma_lex_irrefl(ky);
    }
}

proof fn lemma_rest_keys_within(x: Seq<Seq<char>>, y: Seq<Seq<char>>)
    requires
        path_sorted(x),
        keys_within(x, y),
        x.len() > 0,
        y.len() > 0,
        path_key(x[0]) == path_key(y[0]),
    ensures
        keys_within(x.drop_first(), y.drop_first()),
{
    let x1 = x.drop_first();
    let y1 = y.drop_first();
    assert forall|a: int| 0 <= a < x1.len() implies has_key(y1, path_key(#[trigger] x1[a])) by {
        assert(x1[a] == x[a + 1]);
        assert(has_key(y, path_key(x[a + 1])));
        let b = choose|b: int| 0 <= b < y.len() && path_key(y[b]) == path_key(x[a + 1]);
        assert(path_lt(x[0], x[a + 1]));
        if b == 0 {
            lemma_lex_irrefl(path_key(x[0]));
        }
        assert(y1[b - 1] == y[b]);
        assert(0 <= b - 1 < y1.len() && path_key(y1[b - 1]) == path_key(x1[a]));
    }
}

proof fn lemma_rest_sorted(x: Seq<Seq<char>>)
    requires
        path_sorted(x),
        x.len() > 0,
    ensures
        path_sorted(x.drop_first()),
{
    let x1 = x.drop_first();
    assert forall|a: int, b: int| 0 <= a < b < x1.len() implies path_lt(#[trigger] x1[a], #[trigger] x1[b]) by {
        assert(x1[a] == x[a + 1] && x1[b] == x[b + 1]);
    }
}

/// Two lists that are each strictly in path order and hold the same paths
/// (by key) are the same list.
proof fn lemma_sorted_unique(x: Seq<Seq<char>>, y: Seq<Seq<char>>)
    requires
        path_sorted(x),
        path_sorted(y),
        keys_within(x, y),
        keys_within(y, x),
    ensures
        x.len() == y.len(),
        forall|i: int| 0 <= i < x.len() ==> path_key(#[trigger] x[i]) == path_key(y[i]),
    decreases x.len() + y.len(),
{
    if x.len() == 0 || y.len() == 0 {
        if y.len() > 0 {
            assert(has_key(x, path_key(y[0])));
        }
        if x.len() > 0 {
            assert(has_key(y, path_key(x[0])));
        }
        return;
    }
    lemma_first_keys_agree(x, y);
    lemma_rest_keys_within(x, y);
    lemma_rest_keys_within(y, x);
    lemma_rest_sorted(x);
    lemma_rest_sorted(y);
    let x1 = x.drop_first();
    let y1 = y.drop_first();
    lemma_sorted_unique(x1, y1);
    assert forall|a: int| 0 <= a < x.len() implies path_key(#[trigger] x[a]) == path_key(y[a]) by {
        if a > 0 {
            assert(x[a] == x1[a - 1] && y[a] == y1[a - 1]);
        }
    }
}

proof fn lemma_listed_sorted(a: Seq<(Seq<char>, Seq<char>)>, b: Seq<(Seq<char>, Seq<char>)>, x: Seq<Seq<char>>)
    requires
        lists_changes(a, b, x),
    ensures
        path_sorted(x),
{
}

proof fn lemma_listed_within(
    a: Seq<(Seq<char>, Seq<char>)>,
    b: Seq<(Seq<char>, Seq<char>)>,
    ab: Seq<Seq<char>>,
    ba: Seq<Seq<char>>,
)
    requires
        lists_changes(a, b, ab),
        lists_changes(b, a, ba),
    ensures
        keys_within(ab, ba),
{
    assert forall|i: int| 0 <= i < ab.len() implies has_key(ba, path_key(#[trigger] ab[i])) by {
        lemma_changes_are_symmetric(a, b, path_key(ab[i]));
        assert(changed_key(b, a, path_key(ab[i])));
        let y = choose|y: int| 0 <= y < ba.len() && path_key(ba[y]) == path_key(ab[i]);
        assert(path_key(ba[y]) == path_key(ab[i]));
    }
}

/// The change list of two snapshots is unique: any two lists that each
/// list exactly the changes (in path order, each once) hold the same paths
/// in the same order. So what ACT records as changed is what
/// [`changed_files`] returns for the same two snapshots.
pub proof fn lemma_change_list_is_unique(
    before: Seq<(Seq<char>, Seq<char>)>,
    after: Seq<(Seq<char>, Seq<char>)>,
    x: Seq<Seq<char>>,
    y: Seq<Seq<char>>,
)
    requires
        lists_changes(before, after, x),
        lists_changes(before, after, y),
    ensures
        x.len() == y.len(),
        forall|i: int| 0 <= i < x.len() ==> path_key(#[trigger] x[i]) == path_key(y[i]),
{
    assert forall|i: int| 0 <= i < x.len() implies has_key(y, path_key(#[trigger] x[i])) by {
        assert(changed_key(before, after, path_key(x[i])));
        let j = choose|j: int| 0 <= j < y.len() && path_key(y[j]) == path_key(x[i]);
        assert(path_key(y[j]) == path_key(x[i]));
    }
    assert forall|i: int| 0 <= i < y.len() implies has_key(x, path_key(#[trigger] y[i])) by {
        assert(changed_key(before, after, path_key(y[i])));
        let j = choose|j: int| 0 <= j < x.len() && path_key(x[j]) == path_key(y[i]);
        assert(path_key(x[j]) == path_key(y[i]));
    }
    lemma_listed_sorted(before, after, x);
    lemma_listed_sorted(before, after, y);
    lemma_sorted_unique(x, y);
}

/// Comparing a tree with itself shows no change, and comparing two trees
/// either way round lists the same paths, in the same order.
pub proof fn lemma_changed_files_either_way(
    a: Seq<(Seq<char>, Seq<char>)>,
    b: Seq<(Seq<char>, Seq<char>)>,
    ab: Seq<Seq<char>>,
    ba: Seq<Seq<char>>,
    aa: Seq<Seq<char>>,
)
    requires
        lists_changes(a, b, ab),
        lists_changes(b, a, ba),
        lists_changes(a, a, aa),
    ensures
        aa.len() == 0,
        ab.len() == ba.len(),
        forall|i: int| 0 <= i < ab.len() ==> path_key(#[trigger] ab[i]) == path_key(ba[i]),
{
    if aa.len() > 0 {
        lemma_changes_are_symmetric(a, a, path_key(aa[0]));
    }
    lemma_listed_within(a, b, ab, ba);
    lemma_listed_within(b, a, ba, ab);
    lemma_listed_sorted(a, b, ab);
    lemma_listed_sorted(b, a, ba);
    lemma_sorted_unique(ab, ba);
}

/// The paths whose digest differs between `before` and `after` (added,
/// modified or deleted), in path order, each once.
pub fn changed_files(before: &Snapshot, after: &Snapshot) -> (r: Vec<String>)
    requires
        before.wf(),
        after.wf(),
    ensures
        lists_changes(before@, after@, r.deep_view()),
{
    let b = &before.entries;
    let a = &after.entries;
    let ghost bv = before@;
    let ghost av = after@;
    let mut r: Vec<String> = Vec::new();
    let mut i: usize = 0;
    let mut j: usize = 0;
    while i < b.len() || j < a.len()
        invariant
            i <= bv.len(),
            j <= av.len(),
            bv == b.deep_view(),
            av == a.deep_view(),
            sorted_paths(bv),
            sorted_paths(av),
            merged_upto(bv, av, r.deep_view(), i as int, j as int),
        decreases bv.len() + av.len() - i - j,
    {
        let ghost rv = r.deep_view();
        if j == a.len() || (i < b.len() && key_lt(&key_of(b[i].0.as_str()), &key_of(a[j].0.as_str()))) {
            // b[i] is absent from `after`.
            let ghost k = path_key(bv[i as int].0);
            proof {
                lemma_digest_at(bv, i as int);
                lemma_digest_absent(av, k, j as int);
            }
            r.push(b[i].0.clone());
            proof {
                assert(r.deep_view() =~= rv.push(bv[i as int].0));
                let nr = r.deep_view();
                assert(has_path(bv, nr[rv.len() as int]));
                assert forall|x: int, y: int| 0 <= x < nr.len() && i + 1 <= y < bv.len() implies path_lt(#[trigger] nr[x], #[trigger] bv[y].0) by {
                    if x == rv.len() {
                    } else {
                        assert(path_lt(rv[x], bv[y].0));
                    }
                }
                assert forall|x: int, y: int| 0 <= x < nr.len() && j <= y < av.len() implies path_lt(#[trigger] nr[x], #[trigger] av[y].0) by {
                    if x == rv.len() {
                        if y > j {
                            assert(path_lt(av[j as int].0, av[y].0));
                            lemma_lex_trans(k, path_key(av[j as int].0), path_key(av[y].0));
                        }
                    }
                }
                assert forall|x: int, y: int| 0 <= x < i + 1 && j <= y < av.len() implies path_lt(#[trigger] bv[x].0, #[trigger] av[y].0) by {
                    if x == i && y > j {
                        assert(path_lt(av[j as int].0, av[y].0));
                        lemma_lex_trans(k, path_key(av[j as int].0), path_key(av[y].0));
                    }
                }
                assert forall|x: int| 0 <= x < i + 1 && changed_key(bv, av, path_key(#[trigger] bv[x].0))
                    implies exists|y: int| 0 <= y < nr.len() && path_key(nr[y]) == path_key(bv[x].0) by {
                    if x == i {
                        assert(path_key(nr[rv.len() as int]) == path_key(bv[x].0));
                    } else {
                        let y = choose|y: int| 0 <= y < rv.len() && path_key(rv[y]) == path_key(bv[x].0);
                        assert(nr[y] == rv[y]);
                    }
                }
                assert forall|x: int| 0 <= x < j && changed_key(bv, av, path_key(#[trigger] av[x].0))
                    implies exists|y: int| 0 <= y < nr.len() && path_key(nr[y]) == path_key(av[x].0) by {
                    let y = choose|y: int| 0 <= y < rv.len() && path_key(rv[y]) == path_key(av[x].0);
                    assert(nr[y] == rv[y]);
                }
                assert forall|x: int, y: int| 0 <= x < nr.len() && 0 <= y < nr.len() && x < y implies path_lt(#[trigger] nr[x], #[trigger] nr[y]) by {
                    if y == rv.len() {
                        assert(path_lt(rv[x], bv[i as int].0));
                    }
                }
            }
            i = i + 1;
        } else if i == b.len() || key_lt(&key_of(a[j].0.as_str()), &key_of(b[i].0.as_str())) {
            // a[j] is absent from `before`.
            let ghost k = path_key(av[j as int].0);
            proof {
                lemma_digest_at(av, j as int);
                lemma_digest_absent(bv, k, i as int);
            }
            r.push(a[j].0.clone());
            proof {
                assert(r.deep_view() =~= rv.push(av[j as int].0));
                let nr = r.deep_view();
                assert(has_path(av, nr[rv.len() as int]));
                assert forall|x: int, y: int| 0 <= x < nr.len() && j + 1 <= y < av.len() implies path_lt(#[trigger] nr[x], #[trigger] av[y].0) by {
                    if x == rv.len() {
                    } else {
                        assert(path_lt(rv[x], av[y].0));
                    }
                }
                assert forall|x: int, y: int| 0 <= x < nr.len() && i <= y < bv.len() implies path_lt(#[trigger] nr[x], #[trigger] bv[y].0) by {
                    if x == rv.len() {
                        if y > i {
                            assert(path_lt(bv[i as int].0, bv[y].0));
                            lemma_lex_trans(k, path_key(bv[i as int].0), path_key(bv[y].0));
                        }
                    }
                }
                assert forall|x: int, y: int| 0 <= x < j + 1 && i <= y < bv.len() implies path_lt(#[trigger] av[x].0, #[trigger] bv[y].0) by {
                    if x == j && y > i {
                        assert(path_lt(bv[i as int].0, bv[y].0));
                        lemma_lex_trans(k, path_key(bv[i as int].0), path_key(bv[y].0));
                    }
                }
                assert forall|x: int| 0 <= x < j + 1 && changed_key(bv, av, path_key(#[trigger] av[x].0))
                    implies exists|y: int| 0 <= y < nr.len() && path_key(nr[y]) == path_key(av[x].0) by {
                    if x == j {
                        assert(path_key(nr[rv.len() as int]) == path_key(av[x].0));
                    } else {
                        let y = choose|y: int| 0 <= y < rv.len() && path_key(rv[y]) == path_key(av[x].0);
                        assert(nr[y] == rv[y]);
                    }
                }
                assert forall|x: int| 0 <= x < i && changed_key(bv, av, path_key(#[trigger] bv[x].0))
                    implies exists|y: int| 0 <= y < nr.len() && path_key(nr[y]) == path_key(bv[x].0) by {
                    let y = choose|y: int| 0 <= y < rv.len() && path_key(rv[y]) == path_key(bv[x].0);
                    assert(nr[y] == rv[y]);
                }
                assert forall|x: int, y: int| 0 <= x < nr.len() && 0 <= y < nr.len() && x < y implies path_lt(#[trigger] nr[x], #[trigger] nr[y]) by {
                    if y == rv.len() {
                        assert(path_lt(rv[x], av[j as int].0));
                    }
                }
            }
            j = j + 1;
        } else {
            // The same path in both.
            let ghost k = path_key(av[j as int].0);
            proof {
                lemma_lex_total(path_key(bv[i as int].0), path_key(av[j as int].0));
                lemma_digest_at(av, j as int);
                lemma_digest_at(bv, i as int);
            }
            let same = str_eq(b[i].1.as_str(), a[j].1.as_str());
            if !same {
                r.push(a[j].0.clone());
            }
            proof {
                let nr = r.deep_view();
                if !same {
                    assert(nr =~= rv.push(av[j as int].0));
                    assert(has_path(av, nr[rv.len() as int]));
                } else {
                    assert(nr =~= rv);
                }
                assert forall|x: int, y: int| 0 <= x < nr.len() && i + 1 <= y < bv.len() implies path_lt(#[trigger] nr[x], #[trigger] bv[y].0) by {
                    if x == rv.len() {
                        assert(path_lt(bv[i as int].0, bv[y].0));
                    } else {
                        assert(path_lt(rv[x], bv[y].0));
                    }
                }
                assert forall|x: int, y: int| 0 <= x < nr.len() && j + 1 <= y < av.len() implies path_lt(#[trigger] nr[x], #[trigger] av[y].0) by {
                    if x == rv.len() {
                        assert(path_lt(av[j as int].0, av[y].0));
                    } else {
                        assert(path_lt(rv[x], av[y].0));
                    }
                }
                assert forall|x: int, y: int| 0 <= x < i + 1 && j + 1 <= y < av.len() implies path_lt(#[trigger] bv[x].0, #[trigger] av[y].0) by {
                    if x == i {
                        assert(path_lt(av[j as int].0, av[y].0));
                    }
                }
                assert forall|x: int, y: int| 0 <= x < j + 1 && i + 1 <= y < bv.len() implies path_lt(#[trigger] av[x].0, #[trigger] bv[y].0) by {
                    if x == j {
                        assert(path_lt(bv[i as int].0, bv[y].0));
                    }
                }
                assert forall|x: int| 0 <= x < i + 1 && changed_key(bv, av, path_key(#[trigger] bv[x].0))
                    implies exists|y: int| 0 <= y < nr.len() && path_key(nr[y]) == path_key(bv[x].0) by {
                    if x == i {
                        if !same {
                            assert(path_key(nr[rv.len() as int]) == path_key(bv[x].0));
                        }
                    } else {
                        let y = choose|y: int| 0 <= y < rv.len() && path_key(rv[y]) == path_key(bv[x].0);
                        assert(nr[y] == rv[y]);
                    }
                }
                assert forall|x: int| 0 <= x < j + 1 && changed_key(bv, av, path_key(#[trigger] av[x].0))
                    implies exists|y: int| 0 <= y < nr.len() && path_key(nr[y]) == path_key(av[x].0) by {
                    if x == j {
                        if !same {
                            assert(path_key(nr[rv.len() as int]) == path_key(av[x].0));
                        }
                    } else {
                        let y = choose|y: int| 0 <= y < rv.len() && path_key(rv[y]) == path_key(av[x].0);
                        assert(nr[y] == rv[y]);
                    }
                }
                assert forall|x: int, y: int| 0 <= x < nr.len() && 0 <= y < nr.len() && x < y implies path_lt(#[trigger] nr[x], #[trigger] nr[y]) by {
                    if y == rv.len() {
                        assert(path_lt(rv[x], av[j as int].0));
                    }
                }
            }
            i = i + 1;
            j = j + 1;
        }
    }
    proof {
        let rv = r.deep_view();
        assert forall|k: Seq<u64>| #[trigger] changed_key(bv, av, k) implies exists|y: int| 0 <= y < rv.len() && path_key(rv[y]) == k by {
            if digest_at(bv, k) is Some {
                let x = choose|x: int| 0 <= x < bv.len() && path_key(bv[x].0) == k;
                assert(changed_key(bv, av, path_key(bv[x].0)));
            } else {
                let x = choose|x: int| 0 <= x < av.len() && path_key(av[x].0) == k;
                assert(changed_key(bv, av, path_key(av[x].0)));
            }
        }
    }
    r
}

} // verus!
