//! Paths as plain text, read with `std::path::Path`'s Unix rules:
//! components split at `/`, empty and interior `.` components dropped, a
//! leading `/` or `.` kept as its own component.
use vstd::prelude::*;

use crate::text::{chars_eq, chars_of, split_on, split_seq, string_from_chars};

verus! {

/// A piece between separators that `Path::components` reports as its own
/// component (empty pieces and `.` are skipped).
pub open spec fn kept_piece(x: Seq<char>) -> bool {
    x.len() > 0 && x != seq!['.']
}

pub open spec fn kept(pieces: Seq<Seq<char>>) -> Seq<Seq<char>>
    decreases pieces.len(),
{
    if pieces.len() == 0 {
        seq![]
    } else if kept_piece(pieces.last()) {
        kept(pieces.drop_last()).push(pieces.last())
    } else {
        kept(pieces.drop_last())
    }
}

/// `Path::components`, each component as its text: `/` for the root,
/// `.` for a leading current-directory marker, `..` and names as written.
pub open spec fn components(p: Seq<char>) -> Seq<Seq<char>> {
    let pieces = split_seq(p, '/');
    if p.len() > 0 && p[0] == '/' {
        seq![seq!['/']] + kept(pieces)
    } else if pieces.len() > 0 && pieces[0] == seq!['.'] {
        seq![seq!['.']] + kept(pieces)
    } else {
        kept(pieces)
    }
}

/// A component that is a name (not the root, `.` or `..`).
pub open spec fn is_name(c: Seq<char>) -> bool {
    c != seq!['/'] && c != seq!['.'] && c != seq!['.', '.']
}

/// `Path::file_name`: the last component, when it is a name.
pub open spec fn file_name(p: Seq<char>) -> Option<Seq<char>> {
    let c = components(p);
    if c.len() > 0 && is_name(c.last()) {
        Some(c.last())
    } else {
        None
    }
}

/// Index of the last `.` in `s`, or -1.
pub open spec fn last_dot(s: Seq<char>) -> int
    decreases s.len(),
{
    if s.len() == 0 {
        -1
    } else if s.last() == '.' {
        s.len() - 1
    } else {
        last_dot(s.drop_last())
    }
}

/// `Path::extension`: what follows the last `.` of the file name, unless
/// that dot starts the name.
pub open spec fn extension(p: Seq<char>) -> Option<Seq<char>> {
    match file_name(p) {
        Some(name) => {
            let d = last_dot(name);
            if d <= 0 {
                None
            } else {
                Some(name.skip(d + 1))
            }
        },
        None => None,
    }
}

pub fn is_kept_piece(x: &[char]) -> (r: bool)
    ensures
        r == kept_piece(x@),
{
    if x.len() == 0 {
        return false;
    }
    if x.len() == 1 && x[0] == '.' {
        assert(x@ =~= seq!['.']);
        return false;
    }
    proof {
        if x@ == seq!['.'] {
            assert(x@.len() == 1);
        }
    }
    true
}

/// The components of `p`, in order.
pub fn components_of(p: &str) -> (r: Vec<Vec<char>>)
    ensures
        r@.map_values(|c: Vec<char>| c@) == components(p@),
{
    let v = chars_of(p);
    let pieces = split_on(v.as_slice(), '/');
    let ghost ps = pieces@.map_values(|c: Vec<char>| c@);
    let mut r: Vec<Vec<char>> = Vec::new();
    if v.len() > 0 && v[0] == '/' {
        let mut root: Vec<char> = Vec::new();
        root.push('/');
        r.push(root);
    } else if pieces.len() > 0 && pieces[0].len() == 1 && pieces[0][0] == '.' {
        let mut cur: Vec<char> = Vec::new();
        cur.push('.');
        r.push(cur);
    }
    let ghost head = r@.map_values(|c: Vec<char>| c@);
    proof {
        if v@.len() > 0 && v@[0] == '/' {
            assert(head =~= seq![seq!['/']]);
        } else if pieces@.len() > 0 && pieces@[0]@.len() == 1 && pieces@[0]@[0] == '.' {
            assert(ps[0] =~= seq!['.']);
            assert(head =~= seq![seq!['.']]);
        } else {
            assert(head =~= Seq::<Seq<char>>::empty());
            if ps.len() > 0 && ps[0] == seq!['.'] {
                assert(ps[0].len() == 1);
            }
        }
        assert(ps.take(0) =~= Seq::<Seq<char>>::empty());
    }
    let mut i: usize = 0;
    while i < pieces.len()
        invariant
            i <= pieces@.len(),
            ps == pieces@.map_values(|c: Vec<char>| c@),
            r@.map_values(|c: Vec<char>| c@) == head + kept(ps.take(i as int)),
        decreases pieces@.len() - i,
    {
        let ghost before = r@.map_values(|c: Vec<char>| c@);
        let piece = &pieces[i];
        proof {
            assert(ps.take(i + 1).drop_last() =~= ps.take(i as int));
            assert(ps.take(i + 1).last() == piece@);
        }
        if is_kept_piece(piece.as_slice()) {
            r.push(piece.clone());
            proof {
                assert(r@.map_values(|c: Vec<char>| c@) =~= before.push(piece@));
                assert(head + kept(ps.take(i + 1)) =~= (head + kept(ps.take(i as int))).push(piece@));
            }
        }
        i = i + 1;
    }
    proof { assert(ps.take(pieces@.len() as int) =~= ps); }
    r
}

pub fn is_name_component(c: &[char]) -> (r: bool)
    ensures
        r == is_name(c@),
{
    let r = !(c.len() == 1 && (c[0] == '/' || c[0] == '.')) && !(c.len() == 2 && c[0] == '.' && c[1] == '.');
    proof {
        if c@ == seq!['/'] || c@ == seq!['.'] {
            assert(c@.len() == 1);
        }
        if c@ == seq!['.', '.'] {
            assert(c@.len() == 2);
        }
        if c@.len() == 1 && c@[0] == '/' {
            assert(c@ =~= seq!['/']);
        }
        if c@.len() == 1 && c@[0] == '.' {
            assert(c@ =~= seq!['.']);
        }
        if c@.len() == 2 && c@[0] == '.' && c@[1] == '.' {
            assert(c@ =~= seq!['.', '.']);
        }
    }
    r
}

/// `Path::file_name`, as characters.
pub fn file_name_of(p: &str) -> (r: Option<Vec<char>>)
    ensures
        r matches Some(n) ==> file_name(p@) == Some(n@),
        r is None ==> file_name(p@) is None,
{
    let comps = components_of(p);
    let ghost cs = comps@.map_values(|c: Vec<char>| c@);
    if comps.len() == 0 {
        return None;
    }
    let last = &comps[comps.len() - 1];
    assert(cs.last() == last@);
    if is_name_component(last.as_slice()) {
        Some(last.clone())
    } else {
        None
    }
}

/// Index of the last `.`, or `s.len()` when there is none.
pub fn find_last_dot(s: &[char]) -> (r: usize)
    ensures
        r <= s@.len(),
        r == s@.len() <==> last_dot(s@) == -1,
        r < s@.len() ==> r == last_dot(s@),
{
    let mut i = s.len();
    proof { assert(s@.take(s@.len() as int) =~= s@); }
    while i > 0
        invariant
            i <= s@.len(),
            last_dot(s@) == last_dot(s@.take(i as int)),
        decreases i,
    {
        proof { assert(s@.take(i as int).drop_last() =~= s@.take(i - 1)); }
        if s[i - 1] == '.' {
            return i - 1;
        }
        i = i - 1;
    }
    proof { assert(s@.take(0) =~= Seq::<char>::empty()); }
    s.len()
}

/// `Path::extension`, as characters.
pub fn extension_of(p: &str) -> (r: Option<Vec<char>>)
    ensures
        r matches Some(e) ==> extension(p@) == Some(e@),
        r is None ==> extension(p@) is None,
{
    match file_name_of(p) {
        None => None,
        Some(name) => {
            let d = find_last_dot(name.as_slice());
            if d == name.len() || d == 0 {
                None
            } else {
                Some(crate::text::slice_range(name.as_slice(), d + 1, name.len()))
            }
        },
    }
}


/// `Path::join` on Unix: an absolute `b` replaces `a`; otherwise `b` is
/// appended, with a `/` unless `a` is empty or already ends in one.
pub open spec fn joined(a: Seq<char>, b: Seq<char>) -> Seq<char> {
    if b.len() > 0 && b[0] == '/' {
        b
    } else if a.len() == 0 || a.last() == '/' {
        a + b
    } else {
        a + "/"@ + b
    }
}

pub fn join_path(a: &str, b: &str) -> (r: String)
    ensures
        r@ == joined(a@, b@),
{
    let av = chars_of(a);
    let bv = chars_of(b);
    if bv.len() > 0 && bv[0] == '/' {
        return crate::text::copy_str(b);
    }
    let mut r = crate::text::copy_str(a);
    if !(av.len() == 0 || av[av.len() - 1] == '/') {
        crate::text::push_str(&mut r, "/");
    }
    crate::text::push_str(&mut r, b);
    r
}

} // verus!
