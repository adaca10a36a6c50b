//! Which git repository owns each changed file, so the git plumbing works
//! when the workspace is not itself a repository root: a plain folder
//! holding several repositories, or a repository with nested ones.
use vstd::prelude::*;

use crate::path::{components, components_of, join_path, joined};
use crate::domain::execution::opt_str;
use crate::text::{copy_str, is_blank_str, join, join_strings, str_eq, string_from_chars, trim, trim_str, views};
use crate::workspace::snapshot::{
    ignored_dir, is_ignored_dir, key_lt, key_of, lemma_lex_trans, path_key, path_lt,
};

verus! {

/// The directory components of a changed file: every component but its
/// last.
pub open spec fn dir_parts(file: Seq<char>) -> Seq<Seq<char>> {
    if components(file).len() == 0 {
        seq![]
    } else {
        components(file).drop_last()
    }
}

/// The directory `level` steps below the workspace root on a file's way
/// down; level 0 is the root itself.
pub open spec fn dir_at(root: Seq<char>, file: Seq<char>, level: int) -> Seq<char> {
    if level <= 0 {
        root
    } else {
        joined(root, join(dir_parts(file).take(level), "/"@))
    }
}

/// The file's path relative to the directory at `level`.
pub open spec fn rel_at(file: Seq<char>, level: int) -> Seq<char> {
    join(components(file).skip(level), "/"@)
}

fn component_strings(p: &str) -> (r: Vec<String>)
    ensures
        views(r@) == components(p@),
{
    let cs = components_of(p);
    let mut r: Vec<String> = Vec::new();
    let mut i: usize = 0;
    while i < cs.len()
        invariant
            i <= cs@.len(),
            cs@.map_values(|c: Vec<char>| c@) == components(p@),
            views(r@) == cs@.map_values(|c: Vec<char>| c@).take(i as int),
        decreases cs@.len() - i,
    {
        let ghost before = r@;
        r.push(string_from_chars(cs[i].as_slice()));
        proof {
            assert(views(r@) =~= views(before).push(cs@[i as int]@));
            assert(cs@.map_values(|c: Vec<char>| c@).take(i + 1) =~= cs@.map_values(|c: Vec<char>| c@).take(
                i as int,
            ).push(cs@[i as int]@));
        }
        i = i + 1;
    }
    proof {
        assert(cs@.map_values(|c: Vec<char>| c@).take(cs@.len() as int) =~= cs@.map_values(|c: Vec<char>| c@));
    }
    r
}

fn join_range(parts: &Vec<String>, lo: usize, hi: usize) -> (r: String)
    requires
        lo <= hi <= parts@.len(),
    ensures
        r@ == join(views(parts@).subrange(lo as int, hi as int), "/"@),
{
    let mut v: Vec<String> = Vec::new();
    let mut i: usize = lo;
    while i < hi
        invariant
            lo <= i <= hi,
            hi <= parts@.len(),
            views(v@) == views(parts@).subrange(lo as int, i as int),
        decreases hi - i,
    {
        let ghost before = v@;
        v.push(copy_str(parts[i].as_str()));
        proof {
            assert(views(v@) =~= views(before).push(parts@[i as int]@));
            assert(views(parts@).subrange(lo as int, i + 1) =~= views(parts@).subrange(lo as int, i as int).push(
                parts@[i as int]@,
            ));
        }
        i = i + 1;
    }
    join_strings(v.as_slice(), "/")
}

/// The directory at `level` below `root` on the way to `file`.
pub fn repo_dir(root: &str, file: &str, level: usize) -> (r: String)
    requires
        level <= dir_parts(file@).len(),
    ensures
        r@ == dir_at(root@, file@, level as int),
{
    if level == 0 {
        return copy_str(root);
    }
    let parts = component_strings(file);
    let d = join_range(&parts, 0, level);
    proof {
        assert(views(parts@).subrange(0, level as int) =~= dir_parts(file@).take(level as int));
    }
    join_path(root, d.as_str())
}

/// `file` relative to the directory at `level`.
pub fn rel_path(file: &str, level: usize) -> (r: String)
    requires
        level <= components(file@).len(),
    ensures
        r@ == rel_at(file@, level as int),
{
    let parts = component_strings(file);
    proof {
        assert(views(parts@).subrange(level as int, parts@.len() as int) =~= components(file@).skip(
            level as int,
        ));
    }
    join_range(&parts, level, parts.len())
}

/// How many directory levels lie between the root and the file.
pub fn dir_depth(file: &str) -> (r: usize)
    ensures
        r == dir_parts(file@).len(),
{
    let cs = components_of(file);
    proof {
        assert(cs@.map_values(|c: Vec<char>| c@).len() == cs@.len());
    }
    if cs.len() == 0 {
        0
    } else {
        cs.len() - 1
    }
}

/// The deepest level marked in `found`, where `found[k]` says whether the
/// directory `k` levels below the root holds a `.git` entry.
pub open spec fn nearest_marked_spec(found: Seq<bool>) -> Option<nat>
    decreases found.len(),
{
    if found.len() == 0 {
        None
    } else if found.last() {
        Some((found.len() - 1) as nat)
    } else {
        nearest_marked_spec(found.drop_last())
    }
}

proof fn lemma_nearest_marked(found: Seq<bool>)
    ensures
        nearest_marked_spec(found) matches Some(k) ==> k < found.len() && found[k as int] && forall|j: int|
            k < j < found.len() ==> !found[j],
        nearest_marked_spec(found) is None ==> forall|j: int| 0 <= j < found.len() ==> !found[j],
    decreases found.len(),
{
    if found.len() > 0 && !found.last() {
        lemma_nearest_marked(found.drop_last());
        assert forall|j: int| 0 <= j < found.len() - 1 implies found.drop_last()[j] == found[j] by {}
    }
}

/// The deepest level that holds a `.git` entry, given the answer for each
/// level: the nearest repository root on the way up from the file.
pub fn nearest_marked(found: &Vec<bool>) -> (r: Option<usize>)
    ensures
        r matches Some(k) ==> k < found@.len() && found@[k as int] && forall|j: int| k < j < found@.len() ==> !found@[j],
        r is None ==> forall|j: int| 0 <= j < found@.len() ==> !found@[j],
        match r {
            Some(k) => nearest_marked_spec(found@) == Some(k as nat),
            None => nearest_marked_spec(found@) is None,
        },
{
    proof {
        lemma_nearest_marked(found@);
        assert(found@.take(found@.len() as int) =~= found@);
    }
    let mut level: usize = found.len();
    while level > 0
        invariant
            level <= found@.len(),
            forall|j: int| level <= j < found@.len() ==> !found@[j],
            nearest_marked_spec(found@) == nearest_marked_spec(found@.take(level as int)),
        decreases level,
    {
        proof {
            assert(found@.take(level as int).drop_last() =~= found@.take(level - 1));
        }
        if found[level - 1] {
            return Some(level - 1);
        }
        level = level - 1;
    }
    proof {
        assert(found@.take(0) =~= Seq::<bool>::empty());
    }
    None
}

/// The level of the nearest directory, from the file's own directory up
/// to the workspace root and never above it, that holds a `.git` entry (a
/// directory, or a submodule's `.git` file). The levels are asked from
/// the deepest up and the first hit is taken, through [`nearest_marked`];
/// what is on disk decides the answers, so only that the result is the
/// deepest marked level of some answers for all the levels is claimed.
pub fn nearest_repo_root(root: &str, file: &str) -> (r: Option<usize>)
    ensures
        exists|found: Seq<bool>|
            found.len() == dir_parts(file@).len() + 1 && match r {
                Some(k) => nearest_marked_spec(found) == Some(k as nat),
                None => nearest_marked_spec(found) is None,
            },
        r matches Some(k) ==> k <= dir_parts(file@).len(),
{
    let n = dir_depth(file);
    let mut found: Vec<bool> = Vec::new();
    found.push(false);
    let mut i: usize = 0;
    while i < n
        invariant
            i <= n,
            found@.len() == i + 1,
            n == dir_parts(file@).len(),
        decreases n - i,
    {
        found.push(false);
        i = i + 1;
    }
    let mut level: usize = n;
    loop
        invariant
            level <= n,
            found@.len() == n + 1,
            n == dir_parts(file@).len(),
        decreases level,
    {
        let d = repo_dir(root, file, level);
        let marker = join_path(d.as_str(), ".git");
        if crate::workspace::store::path_exists(marker.as_str()) {
            found.set(level, true);
            break;
        }
        if level == 0 {
            break;
        }
        level = level - 1;
    }
    let r = nearest_marked(&found);
    proof {
        let f = found@;
        assert(f.len() == dir_parts(file@).len() + 1);
        lemma_nearest_marked(f);
    }
    r
}

/// A repository's branch and whether its working tree has changes.
pub struct GitState {
    pub branch: String,
    pub dirty: bool,
}

/// The state `git symbolic-ref --short HEAD` and `git status --porcelain`
/// report: the trimmed branch name, or `detached` when the first failed or
/// printed nothing; dirty when the second printed anything. A repository
/// whose state cannot be read still gets a row.
pub fn git_state_from(
    branch_reply: std::result::Result<String, String>,
    status_reply: std::result::Result<String, String>,
) -> (r: GitState)
    ensures
        r.branch@ == (match branch_reply {
            Ok(s) => if trim(s@).len() > 0 {
                trim(s@)
            } else {
                "detached"@
            },
            Err(_) => "detached"@,
        }),
        r.dirty == (match status_reply {
            Ok(s) => trim(s@).len() > 0,
            Err(_) => false,
        }),
{
    let branch = match branch_reply {
        Ok(s) => {
            if is_blank_str(s.as_str()) {
                copy_str("detached")
            } else {
                trim_str(s.as_str())
            }
        },
        Err(_) => copy_str("detached"),
    };
    let dirty = match status_reply {
        Ok(s) => !is_blank_str(s.as_str()),
        Err(_) => false,
    };
    GitState { branch, dirty }
}

/// A safety net against an accidentally huge workspace (a drive root):
/// discovery stops after visiting this many entries.
pub const DISCOVER_VISIT_CAP: usize = 100000;

/// What the walk looking for repositories does with the entry it is at.
#[derive(Clone, Copy, Debug, PartialEq, Eq, Structural)]
pub enum DiscoverStep {
    /// The visit cap is reached: stop, and report the scan as capped.
    Stop,
    /// Not a directory, or unreadable: go on.
    Pass,
    /// An ignored directory below the root: do not descend.
    Prune,
    /// A repository: report it and do not descend, so a nested repository
    /// is not reported on its own.
    Record,
    /// A plain directory: descend.
    Descend,
}

/// One entry the walk reached: its depth below the root, whether it is a
/// directory, its name, and whether it holds a `.git` entry.
pub struct WalkEntry {
    pub depth: usize,
    pub is_dir: bool,
    pub name: String,
    pub has_git: bool,
}

pub open spec fn discover_step_spec(visited: nat, entry: Option<(nat, bool, Seq<char>, bool)>) -> DiscoverStep {
    if visited > DISCOVER_VISIT_CAP {
        DiscoverStep::Stop
    } else {
        match entry {
            None => DiscoverStep::Pass,
            Some((depth, is_dir, name, has_git)) => if !is_dir {
                DiscoverStep::Pass
            } else if depth > 0 && ignored_dir(name) {
                DiscoverStep::Prune
            } else if has_git {
                DiscoverStep::Record
            } else {
                DiscoverStep::Descend
            },
        }
    }
}

pub open spec fn walk_entry_view(e: Option<WalkEntry>) -> Option<(nat, bool, Seq<char>, bool)> {
    match e {
        Some(w) => Some((w.depth as nat, w.is_dir, w.name@, w.has_git)),
        None => None,
    }
}

/// The decision for the `visited`-th entry of the walk (`None` for an
/// entry that could not be read).
pub fn discover_step(visited: usize, entry: &Option<WalkEntry>) -> (r: DiscoverStep)
    ensures
        r == discover_step_spec(visited as nat, walk_entry_view(*entry)),
{
    if visited > DISCOVER_VISIT_CAP {
        return DiscoverStep::Stop;
    }
    match entry {
        None => DiscoverStep::Pass,
        Some(w) => {
            if !w.is_dir {
                DiscoverStep::Pass
            } else if w.depth > 0 && is_ignored_dir(w.name.as_str()) {
                DiscoverStep::Prune
            } else if w.has_git {
                DiscoverStep::Record
            } else {
                DiscoverStep::Descend
            }
        },
    }
}

// ---------------------------------------------------------------------
// Grouping changed files by repository
// ---------------------------------------------------------------------

/// The repository that owns file `i`, given the level its `.git` was
/// found at (`None`: no repository between it and the root).
pub open spec fn owner_of(root: Seq<char>, files: Seq<Seq<char>>, levels: Seq<Option<usize>>, i: int) -> Option<
    Seq<char>,
> {
    match levels[i] {
        Some(k) => Some(dir_at(root, files[i], k as int)),
        None => None,
    }
}

/// The levels fit the files: one per file, none above the root.
pub open spec fn levels_fit(files: Seq<Seq<char>>, levels: Seq<Option<usize>>) -> bool {
    &&& levels.len() == files.len()
    &&& forall|i: int| 0 <= i < files.len() ==> (#[trigger] levels[i] matches Some(k) ==> k <= dir_parts(files[i]).len())
}

/// The files among the first `n` that no repository owns, in order.
pub open spec fn unversioned_upto(files: Seq<Seq<char>>, levels: Seq<Option<usize>>, n: int) -> Seq<Seq<char>>
    decreases n,
{
    if n <= 0 {
        seq![]
    } else {
        unversioned_upto(files, levels, n - 1) + (if levels[n - 1] is None {
            seq![files[n - 1]]
        } else {
            seq![]
        })
    }
}

/// The files among the first `n` that `repo` owns, relative to it, in
/// order.
pub open spec fn owned_upto(
    root: Seq<char>,
    files: Seq<Seq<char>>,
    levels: Seq<Option<usize>>,
    repo: Seq<char>,
    n: int,
) -> Seq<Seq<char>>
    decreases n,
{
    if n <= 0 {
        seq![]
    } else {
        owned_upto(root, files, levels, repo, n - 1) + (match levels[n - 1] {
            Some(k) => if dir_at(root, files[n - 1], k as int) == repo {
                seq![rel_at(files[n - 1], k as int)]
            } else {
                seq![]
            },
            None => seq![],
        })
    }
}

/// `a` sorts before `b`: deeper first, so a nested repository is
/// committed before the one around it picks up its new state; at equal
/// depth, in path order.
pub open spec fn deeper_first(a: Seq<char>, b: Seq<char>) -> bool {
    ||| components(a).len() > components(b).len()
    ||| (components(a).len() == components(b).len() && path_lt(a, b))
}

pub proof fn lemma_deeper_first_trans(a: Seq<char>, b: Seq<char>, c: Seq<char>)
    requires
        deeper_first(a, b),
        deeper_first(b, c),
    ensures
        deeper_first(a, c),
{
    if components(a).len() == components(b).len() && components(b).len() == components(c).len() {
        lemma_lex_trans(path_key(a), path_key(b), path_key(c));
    }
}

/// `groups` is the grouping of the files by owning repository: each
/// repository once, deepest first; every owned file's repository among
/// them; and each with exactly the files it owns, relative to it, in their
/// original order.
pub open spec fn is_grouping(
    root: Seq<char>,
    files: Seq<Seq<char>>,
    levels: Seq<Option<usize>>,
    groups: Seq<(Seq<char>, Seq<Seq<char>>)>,
) -> bool {
    &&& forall|j: int, k: int|
        0 <= j < k < groups.len() ==> #[trigger] groups[j].0 != #[trigger] groups[k].0 && !deeper_first(
            groups[k].0,
            groups[j].0,
        )
    &&& forall|i: int|
        0 <= i < files.len() ==> (#[trigger] owner_of(root, files, levels, i) matches Some(o) ==> has_group(groups, o))
    &&& forall|j: int|
        0 <= j < groups.len() ==> owns_some(root, files, levels, #[trigger] groups[j].0) && groups[j].1 == owned_upto(
            root,
            files,
            levels,
            groups[j].0,
            files.len() as int,
        )
}

/// Some group is the repository `o`'s.
pub open spec fn has_group(groups: Seq<(Seq<char>, Seq<Seq<char>>)>, o: Seq<char>) -> bool {
    exists|j: int| 0 <= j < groups.len() && #[trigger] groups[j].0 == o
}

/// The repository `o` owns some file.
pub open spec fn owns_some(root: Seq<char>, files: Seq<Seq<char>>, levels: Seq<Option<usize>>, o: Seq<char>) -> bool {
    exists|i: int| 0 <= i < files.len() && #[trigger] owner_of(root, files, levels, i) == Some(o)
}

fn deeper_first_exec(a: &str, b: &str) -> (r: bool)
    ensures
        r == deeper_first(a@, b@),
{
    let ca = components_of(a);
    let cb = components_of(b);
    proof {
        assert(ca@.map_values(|c: Vec<char>| c@).len() == ca@.len());
        assert(cb@.map_values(|c: Vec<char>| c@).len() == cb@.len());
    }
    if ca.len() != cb.len() {
        return ca.len() > cb.len();
    }
    let ka = key_of(a);
    let kb = key_of(b);
    key_lt(&ka, &kb)
}

fn position_of(repos: &Vec<String>, s: &str) -> (r: Option<usize>)
    ensures
        match r {
            Some(j) => j < repos@.len() && repos@[j as int]@ == s@,
            None => forall|j: int| 0 <= j < repos@.len() ==> #[trigger] repos@[j]@ != s@,
        },
{
    let mut j: usize = 0;
    while j < repos.len()
        invariant
            j <= repos@.len(),
            forall|k: int| 0 <= k < j ==> #[trigger] repos@[k]@ != s@,
        decreases repos@.len() - j,
    {
        if crate::text::str_eq(repos[j].as_str(), s) {
            return Some(j);
        }
        j = j + 1;
    }
    None
}

/// Some entry of `v` is the path `x`.
pub open spec fn lists(v: Seq<String>, x: Seq<char>) -> bool {
    exists|a: int| 0 <= a < v.len() && #[trigger] v[a]@ == x
}

/// Sorts distinct repository paths deepest first, keeping the same paths.
fn sort_deeper_first(v: &mut Vec<String>)
    requires
        forall|a: int, b: int| 0 <= a < b < old(v)@.len() ==> #[trigger] old(v)@[a]@ != #[trigger] old(v)@[b]@,
    ensures
        final(v)@.len() == old(v)@.len(),
        forall|a: int, b: int| 0 <= a < b < final(v)@.len() ==> #[trigger] final(v)@[a]@ != #[trigger] final(v)@[b]@,
        forall|a: int, b: int| 0 <= a < b < final(v)@.len() ==> !deeper_first(#[trigger] final(v)@[b]@, #[trigger] final(v)@[a]@),
        forall|x: Seq<char>| #[trigger] lists(final(v)@, x) <==> lists(old(v)@, x),
{
    let ghost orig = v@;
    let n = v.len();
    let mut i: usize = 0;
    while i < n
        invariant
            n == v@.len(),
            n == orig.len(),
            i <= n,
            forall|a: int, b: int| 0 <= a < b < n ==> #[trigger] v@[a]@ != #[trigger] v@[b]@,
            forall|a: int, b: int| 0 <= a < i && a < b < n ==> !deeper_first(#[trigger] v@[b]@, #[trigger] v@[a]@),
            forall|x: Seq<char>| #[trigger] lists(v@, x) <==> lists(orig, x),
        decreases n - i,
    {
        let mut best: usize = i;
        let mut j: usize = i + 1;
        proof {
            if deeper_first(v@[i as int]@, v@[i as int]@) {
                crate::workspace::snapshot::lemma_lex_irrefl(path_key(v@[i as int]@));
            }
        }
        while j < n
            invariant
                n == v@.len(),
                i < n,
                i <= best < n,
                i < j <= n,
                forall|k: int| i <= k < j ==> !deeper_first(#[trigger] v@[k]@, v@[best as int]@),
            decreases n - j,
        {
            if deeper_first_exec(v[j].as_str(), v[best].as_str()) {
                proof {
                    assert forall|k: int| i <= k < j + 1 implies !deeper_first(#[trigger] v@[k]@, v@[j as int]@) by {
                        if k < j && deeper_first(v@[k]@, v@[j as int]@) {
                            lemma_deeper_first_trans(v@[k]@, v@[j as int]@, v@[best as int]@);
                        }
                        if k == j && deeper_first(v@[k]@, v@[j as int]@) {
                            crate::workspace::snapshot::lemma_lex_irrefl(path_key(v@[k]@));
                        }
                    }
                }
                best = j;
            } else {
                proof {
                    if deeper_first(v@[best as int]@, v@[best as int]@) {
                        crate::workspace::snapshot::lemma_lex_irrefl(path_key(v@[best as int]@));
                    }
                }
            }
            j = j + 1;
        }
        let ghost before = v@;
        let a_val = v[i].clone();
        let b_val = v[best].clone();
        v.set(i, b_val);
        v.set(best, a_val);
        proof {
            assert(v@[i as int]@ == before[best as int]@);
            assert(v@[best as int]@ == before[i as int]@);
            assert forall|k: int| 0 <= k < n && k != i && k != best implies #[trigger] v@[k]@ == before[k]@ by {}
            assert forall|a: int, b: int| 0 <= a < b < n implies #[trigger] v@[a]@ != #[trigger] v@[b]@ by {
                let pa = if a == i { best as int } else if a == best { i as int } else { a };
                let pb = if b == i { best as int } else if b == best { i as int } else { b };
                assert(v@[a]@ == before[pa]@);
                assert(v@[b]@ == before[pb]@);
                assert(pa != pb);
                if pa < pb {
                    assert(before[pa]@ != before[pb]@);
                } else {
                    assert(before[pb]@ != before[pa]@);
                }
            }
            assert forall|a: int, b: int| 0 <= a < i + 1 && a < b < n implies !deeper_first(
                #[trigger] v@[b]@,
                #[trigger] v@[a]@,
            ) by {
                let pb = if b == i { best as int } else if b == best { i as int } else { b };
                assert(v@[b]@ == before[pb]@);
                if a < i {
                    assert(v@[a]@ == before[a]@);
                    assert(a < pb);
                } else {
                    assert(v@[a]@ == before[best as int]@);
                    assert(i <= pb < n);
                }
            }
            assert forall|x: Seq<char>| #[trigger] lists(v@, x) <==> lists(orig, x) by {
                if lists(v@, x) {
                    let a = choose|a: int| 0 <= a < v@.len() && #[trigger] v@[a]@ == x;
                    let pa = if a == i { best as int } else if a == best { i as int } else { a };
                    assert(before[pa]@ == x);
                    assert(lists(before, x));
                }
                if lists(orig, x) {
                    assert(lists(before, x));
                    let a = choose|a: int| 0 <= a < before.len() && #[trigger] before[a]@ == x;
                    let pa = if a == i { best as int } else if a == best { i as int } else { a };
                    assert(v@[pa]@ == x);
                }
            }
        }
        i = i + 1;
    }
}

pub open spec fn group_views(g: Seq<(String, Vec<String>)>) -> Seq<(Seq<char>, Seq<Seq<char>>)> {
    g.map_values(|e: (String, Vec<String>)| (e.0@, views(e.1@)))
}

/// Groups changed files (each relative to the workspace root) by the
/// repository that owns them, given the level each one's repository was
/// found at: the repositories deepest first, each with its files relative
/// to it; and, apart, the files no repository owns.
pub fn group_files(root: &str, files: &Vec<String>, levels: &Vec<Option<usize>>) -> (r: (
    Vec<(String, Vec<String>)>,
    Vec<String>,
))
    requires
        levels_fit(views(files@), levels@),
    ensures
        is_grouping(root@, views(files@), levels@, group_views(r.0@)),
        views(r.1@) == unversioned_upto(views(files@), levels@, files@.len() as int),
{
    let ghost fv = views(files@);
    let ghost lv = levels@;
    let n = files.len();
    let mut owners: Vec<Option<String>> = Vec::new();
    let mut rels: Vec<String> = Vec::new();
    let mut unversioned: Vec<String> = Vec::new();
    let mut i: usize = 0;
    while i < n
        invariant
            n == files@.len(),
            fv == views(files@),
            lv == levels@,
            levels_fit(fv, lv),
            i <= n,
            owners@.len() == i,
            rels@.len() == i,
            forall|k: int| 0 <= k < i ==> opt_str(#[trigger] owners@[k]) == owner_of(root@, fv, lv, k),
            forall|k: int| 0 <= k < i ==> (lv[k] matches Some(l) ==> #[trigger] rels@[k]@ == rel_at(fv[k], l as int)),
            views(unversioned@) == unversioned_upto(fv, lv, i as int),
        decreases n - i,
    {
        let ghost before_u = unversioned@;
        proof {
            assert(fv[i as int] == files@[i as int]@);
            assert(lv[i as int] == levels@[i as int]);
        }
        match levels[i] {
            Some(l) => {
                proof {
                    assert(l <= dir_parts(fv[i as int]).len());
                }
                owners.push(Some(repo_dir(root, files[i].as_str(), l)));
                rels.push(rel_path(files[i].as_str(), l));
            },
            None => {
                owners.push(None);
                rels.push(String::new());
                unversioned.push(files[i].clone());
                proof {
                    assert(views(unversioned@) =~= views(before_u).push(fv[i as int]));
                }
            },
        }
        proof {
            assert(unversioned_upto(fv, lv, i + 1) =~= unversioned_upto(fv, lv, i as int) + (if lv[i as int] is None {
                seq![fv[i as int]]
            } else {
                seq![]
            }));
            if lv[i as int] is Some {
                assert(views(unversioned@) =~= views(before_u));
            }
        }
        i = i + 1;
    }
    let mut repos: Vec<String> = Vec::new();
    i = 0;
    while i < n
        invariant
            n == owners@.len(),
            i <= n,
            forall|k: int| 0 <= k < n ==> opt_str(#[trigger] owners@[k]) == owner_of(root@, fv, lv, k),
            forall|a: int, b: int| 0 <= a < b < repos@.len() ==> #[trigger] repos@[a]@ != #[trigger] repos@[b]@,
            forall|k: int| 0 <= k < i ==> (#[trigger] owner_of(root@, fv, lv, k) matches Some(o) ==> lists(repos@, o)),
            forall|j: int| 0 <= j < repos@.len() ==> exists|k: int| 0 <= k < i && #[trigger] owner_of(root@, fv, lv, k) == Some(#[trigger] repos@[j]@),
        decreases n - i,
    {
        let ghost before = repos@;
        match &owners[i] {
            Some(o) => {
                proof {
                    assert(owner_of(root@, fv, lv, i as int) == Some(o@));
                }
                match position_of(&repos, o.as_str()) {
                    Some(_) => {},
                    None => {
                        repos.push(o.clone());
                        proof {
                            assert(repos@[before.len() as int]@ == o@);
                            assert(lists(repos@, o@));
                            assert forall|k: int| 0 <= k < i implies (#[trigger] owner_of(root@, fv, lv, k) matches Some(o2) ==> lists(repos@, o2)) by {
                                if let Some(o2) = owner_of(root@, fv, lv, k) {
                                    assert(lists(before, o2));
                                    let a = choose|a: int| 0 <= a < before.len() && #[trigger] before[a]@ == o2;
                                    assert(repos@[a]@ == o2);
                                }
                            }
                        }
                    },
                }
            },
            None => {},
        }
        proof {
            assert forall|j: int| 0 <= j < repos@.len() implies exists|k: int| 0 <= k < i + 1 && #[trigger] owner_of(root@, fv, lv, k) == Some(#[trigger] repos@[j]@) by {
                if j < before.len() {
                    assert(repos@[j] == before[j]);
                } else {
                    assert(owner_of(root@, fv, lv, i as int) == Some(repos@[j]@));
                }
            }
        }
        i = i + 1;
    }
    let ghost unsorted = repos@;
    sort_deeper_first(&mut repos);
    let mut groups: Vec<(String, Vec<String>)> = Vec::new();
    let mut p: usize = 0;
    while p < repos.len()
        invariant
            n == owners@.len(),
            n == rels@.len(),
            n == fv.len(),
            p <= repos@.len(),
            groups@.len() == p,
            forall|k: int| 0 <= k < n ==> opt_str(#[trigger] owners@[k]) == owner_of(root@, fv, lv, k),
            forall|k: int| 0 <= k < n ==> (lv[k] matches Some(l) ==> #[trigger] rels@[k]@ == rel_at(fv[k], l as int)),
            forall|q: int| 0 <= q < p ==> #[trigger] groups@[q].0@ == repos@[q]@ && views(groups@[q].1@) == owned_upto(
                root@,
                fv,
                lv,
                repos@[q]@,
                n as int,
            ),
        decreases repos@.len() - p,
    {
        let mut list: Vec<String> = Vec::new();
        let mut k: usize = 0;
        while k < n
            invariant
                n == owners@.len(),
                n == rels@.len(),
                n == fv.len(),
                p < repos@.len(),
                k <= n,
                forall|k2: int| 0 <= k2 < n ==> opt_str(#[trigger] owners@[k2]) == owner_of(root@, fv, lv, k2),
                forall|k2: int| 0 <= k2 < n ==> (lv[k2] matches Some(l) ==> #[trigger] rels@[k2]@ == rel_at(fv[k2], l as int)),
                views(list@) == owned_upto(root@, fv, lv, repos@[p as int]@, k as int),
            decreases n - k,
        {
            let ghost before = list@;
            proof {
                assert(opt_str(owners@[k as int]) == owner_of(root@, fv, lv, k as int));
            }
            match &owners[k] {
                Some(o) => {
                    if str_eq(o.as_str(), repos[p].as_str()) {
                        list.push(rels[k].clone());
                        proof {
                            assert(views(list@) =~= views(before).push(rels@[k as int]@));
                        }
                    }
                },
                None => {},
            }
            proof {
                let tail = match lv[k as int] {
                    Some(l) => if dir_at(root@, fv[k as int], l as int) == repos@[p as int]@ {
                        seq![rel_at(fv[k as int], l as int)]
                    } else {
                        seq![]
                    },
                    None => seq![],
                };
                assert(owned_upto(root@, fv, lv, repos@[p as int]@, k + 1) == owned_upto(root@, fv, lv, repos@[p as int]@, k as int) + tail);
                assert(views(list@) =~= views(before) + tail);
            }
            k = k + 1;
        }
        groups.push((repos[p].clone(), list));
        p = p + 1;
    }
    proof {
        let gv = group_views(groups@);
        assert(gv.len() == repos@.len());
        assert forall|j: int| 0 <= j < gv.len() implies #[trigger] gv[j].0 == repos@[j]@ && gv[j].1 == owned_upto(root@, fv, lv, repos@[j]@, n as int) by {}
        assert forall|j: int, k: int| 0 <= j < k < gv.len() implies #[trigger] gv[j].0 != #[trigger] gv[k].0 && !deeper_first(gv[k].0, gv[j].0) by {
            assert(gv[j].0 == repos@[j]@);
            assert(gv[k].0 == repos@[k]@);
        }
        assert forall|i2: int| 0 <= i2 < fv.len() implies (#[trigger] owner_of(root@, fv, lv, i2) matches Some(o) ==> has_group(gv, o)) by {
            if let Some(o) = owner_of(root@, fv, lv, i2) {
                assert(lists(unsorted, o));
                assert(lists(repos@, o));
                let j = choose|j: int| 0 <= j < repos@.len() && #[trigger] repos@[j]@ == o;
                assert(gv[j].0 == o);
            }
        }
        assert forall|j: int| 0 <= j < gv.len() implies owns_some(root@, fv, lv, #[trigger] gv[j].0) && gv[j].1 == owned_upto(root@, fv, lv, gv[j].0, fv.len() as int) by {
            assert(gv[j].0 == repos@[j]@);
            assert(lists(repos@, repos@[j]@));
            assert(lists(unsorted, repos@[j]@));
            let a = choose|a: int| 0 <= a < unsorted.len() && #[trigger] unsorted[a]@ == repos@[j]@;
            assert(exists|k: int| 0 <= k < n && #[trigger] owner_of(root@, fv, lv, k) == Some(#[trigger] unsorted[a]@));
        }
    }
    (groups, unversioned)
}

/// Groups the changed files by owning repository, looking on disk for
/// each file's nearest `.git` up to the workspace root. What is on disk
/// decides where each file's repository is; whatever it is, the result is
/// the grouping [`group_files`] makes of it.
pub fn group_by_repo(workspace_root: &str, changed_files: &Vec<String>) -> (r: (
    Vec<(String, Vec<String>)>,
    Vec<String>,
))
    ensures
        exists|levels: Seq<Option<usize>>|
            levels_fit(views(changed_files@), levels) && is_grouping(
                workspace_root@,
                views(changed_files@),
                levels,
                group_views(r.0@),
            ) && views(r.1@) == unversioned_upto(views(changed_files@), levels, changed_files@.len() as int),
{
    let mut levels: Vec<Option<usize>> = Vec::new();
    let mut i: usize = 0;
    while i < changed_files.len()
        invariant
            i <= changed_files@.len(),
            levels@.len() == i,
            forall|k: int| 0 <= k < i ==> (#[trigger] levels@[k] matches Some(l) ==> l <= dir_parts(changed_files@[k]@).len()),
        decreases changed_files@.len() - i,
    {
        levels.push(nearest_repo_root(workspace_root, changed_files[i].as_str()));
        i = i + 1;
    }
    proof {
        assert forall|k: int| 0 <= k < changed_files@.len() implies (#[trigger] levels@[k] matches Some(l) ==> l
            <= dir_parts(views(changed_files@)[k]).len()) by {
            assert(views(changed_files@)[k] == changed_files@[k]@);
        }
    }
    let r = group_files(workspace_root, changed_files, &levels);
    r
}

} // verus!
