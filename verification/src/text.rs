//! Character-level text helpers shared by the whole library: the models of
//! the handful of `str` operations the orchestration logic relies on
//! (trimming, line splitting, substring search, decimal rendering).
use vstd::prelude::*;
use vstd::string::StringExecFns;
use vstd::utf8::*;

verus! {

/// Unicode `White_Space`, the set `char::is_whitespace` tests: tab, line
/// feed, vertical tab, form feed, carriage return, space, next line,
/// no-break space, ogham space mark, the spaces U+2000 to U+200A, the line
/// and paragraph separators, the narrow no-break space, the medium
/// mathematical space and the ideographic space.
pub open spec fn is_whitespace(c: char) -> bool {
    ||| ('\u{9}' <= c && c <= '\u{D}')
    ||| c == ' '
    ||| c == '\u{85}'
    ||| c == '\u{A0}'
    ||| c == '\u{1680}'
    ||| ('\u{2000}' <= c && c <= '\u{200A}')
    ||| c == '\u{2028}'
    ||| c == '\u{2029}'
    ||| c == '\u{202F}'
    ||| c == '\u{205F}'
    ||| c == '\u{3000}'
}

/// Unicode lower-casing of a whole string, as `str::to_lowercase` does it.
pub uninterp spec fn lowercase(s: Seq<char>) -> Seq<char>;

/// Whether `c` is white space, as `char::is_whitespace` answers.
pub fn char_is_whitespace(c: char) -> (r: bool)
    ensures
        r == is_whitespace(c),
{
    ('\u{9}' <= c && c <= '\u{D}') || c == ' ' || c == '\u{85}' || c == '\u{A0}' || c == '\u{1680}'
        || ('\u{2000}' <= c && c <= '\u{200A}') || c == '\u{2028}' || c == '\u{2029}' || c == '\u{202F}'
        || c == '\u{205F}' || c == '\u{3000}'
}

/// `str::to_lowercase`. Claims only that the result depends on the text
/// alone, named `lowercase`.
#[verifier::external_body]
pub fn to_lowercase(s: &str) -> (r: String)
    ensures
        r@ == lowercase(s@),
{
    s.to_lowercase()
}

/// `String::push`: appends one character.
#[verifier::external_body]
pub fn push_char(s: &mut String, c: char)
    ensures
        final(s)@ == old(s)@.push(c),
{
    s.push(c);
}

/// The characters of `v`, in order, as a `String`.
pub fn string_from_chars(v: &[char]) -> (r: String)
    ensures
        r@ == v@,
{
    let mut s = String::new();
    let mut i: usize = 0;
    while i < v.len()
        invariant
            i <= v@.len(),
            s@ == v@.take(i as int),
        decreases v@.len() - i,
    {
        push_char(&mut s, v[i]);
        proof {
            assert(v@.take(i + 1) =~= v@.take(i as int).push(v@[i as int]));
        }
        i = i + 1;
    }
    proof {
        assert(v@.take(v@.len() as int) =~= v@);
    }
    s
}

/// The characters of `s`, in order.
pub fn chars_of(s: &str) -> (v: Vec<char>)
    ensures
        v@ == s@,
{
    let mut v: Vec<char> = Vec::new();
    for c in it: s.chars()
        invariant
            v@ == it.seq().take(it.index() as int),
            it.seq() == s@,
    {
        v.push(c);
    }
    v
}

/// A fresh copy of `s`.
pub fn copy_str(s: &str) -> (r: String)
    ensures
        r@ == s@,
{
    String::from_str(s)
}

/// Appends `b` to `a`.
pub fn push_str(a: &mut String, b: &str)
    ensures
        final(a)@ == old(a)@ + b@,
{
    a.append(b);
}

// ---------------------------------------------------------------------
// Trimming
// ---------------------------------------------------------------------

pub open spec fn trim_start(s: Seq<char>) -> Seq<char>
    decreases s.len(),
{
    if s.len() > 0 && is_whitespace(s[0]) {
        trim_start(s.drop_first())
    } else {
        s
    }
}

pub open spec fn trim_end(s: Seq<char>) -> Seq<char>
    decreases s.len(),
{
    if s.len() > 0 && is_whitespace(s.last()) {
        trim_end(s.drop_last())
    } else {
        s
    }
}

/// `str::trim`: strips whitespace from both ends.
pub open spec fn trim(s: Seq<char>) -> Seq<char> {
    trim_end(trim_start(s))
}

/// Every character is whitespace (so `trim` leaves nothing).
pub open spec fn is_blank(s: Seq<char>) -> bool {
    forall|i: int| 0 <= i < s.len() ==> is_whitespace(#[trigger] s[i])
}

pub proof fn lemma_trim_start_skip(s: Seq<char>, i: int)
    requires
        0 <= i <= s.len(),
        forall|j: int| 0 <= j < i ==> is_whitespace(#[trigger] s[j]),
    ensures
        trim_start(s) == trim_start(s.skip(i)),
    decreases i,
{
    if i > 0 {
        assert(s.drop_first().skip(i - 1) =~= s.skip(i));
        lemma_trim_start_skip(s.drop_first(), i - 1);
    } else {
        assert(s.skip(0) =~= s);
    }
}

pub proof fn lemma_trim_end_take(s: Seq<char>, i: int)
    requires
        0 <= i <= s.len(),
        forall|j: int| i <= j < s.len() ==> is_whitespace(#[trigger] s[j]),
    ensures
        trim_end(s) == trim_end(s.take(i)),
    decreases s.len() - i,
{
    if i < s.len() {
        assert(s.drop_last().take(i) =~= s.take(i));
        lemma_trim_end_take(s.drop_last(), i);
    } else {
        assert(s.take(i) =~= s);
    }
}

pub proof fn lemma_trim_blank(s: Seq<char>)
    ensures
        is_blank(s) <==> trim(s).len() == 0,
{
    let mut k: int = 0;
    if is_blank(s) {
        lemma_trim_start_skip(s, s.len() as int);
        assert(s.skip(s.len() as int) =~= Seq::<char>::empty());
    } else {
        let i = choose|i: int| 0 <= i < s.len() && !is_whitespace(s[i]);
        lemma_first_non_ws(s, i);
    }
}

/// If some character is not whitespace, trimming keeps it.
proof fn lemma_first_non_ws(s: Seq<char>, i: int)
    requires
        0 <= i < s.len(),
        !is_whitespace(s[i]),
    ensures
        trim(s).len() > 0,
    decreases i,
{
    if s.len() > 0 && is_whitespace(s[0]) {
        lemma_first_non_ws(s.drop_first(), i - 1);
        assert(trim_start(s) == trim_start(s.drop_first()));
    } else {
        assert(trim_start(s) == s);
        lemma_trim_end_nonempty(s);
    }
}

proof fn lemma_trim_end_nonempty(s: Seq<char>)
    requires
        s.len() > 0,
        !is_whitespace(s[0]),
    ensures
        trim_end(s).len() > 0,
    decreases s.len(),
{
    if is_whitespace(s.last()) {
        lemma_trim_end_nonempty(s.drop_last());
    }
}

/// The bounds `(lo, hi)` with `s[lo..hi] == trim(s)`.
pub fn trim_bounds(v: &[char]) -> (r: (usize, usize))
    ensures
        r.0 <= r.1 <= v@.len(),
        v@.subrange(r.0 as int, r.1 as int) == trim(v@),
{
    let mut lo: usize = 0;
    while lo < v.len() && char_is_whitespace(v[lo])
        invariant
            lo <= v@.len(),
            forall|j: int| 0 <= j < lo ==> is_whitespace(#[trigger] v@[j]),
        decreases v@.len() - lo,
    {
        lo = lo + 1;
    }
    proof {
        lemma_trim_start_skip(v@, lo as int);
        if lo < v@.len() {
            assert(trim_start(v@.skip(lo as int)) == v@.skip(lo as int));
        } else {
            assert(v@.skip(lo as int).len() == 0);
        }
    }
    let ghost rest = v@.skip(lo as int);
    assert(trim_start(v@) == rest);
    let mut hi: usize = v.len();
    while hi > lo && char_is_whitespace(v[hi - 1])
        invariant
            lo <= hi <= v@.len(),
            rest == v@.skip(lo as int),
            forall|j: int| hi <= j < v@.len() ==> is_whitespace(#[trigger] v@[j]),
        decreases hi,
    {
        hi = hi - 1;
    }
    proof {
        let k = hi - lo;
        assert forall|j: int| k <= j < rest.len() implies is_whitespace(#[trigger] rest[j]) by {
            assert(rest[j] == v@[j + lo]);
        }
        lemma_trim_end_take(rest, k as int);
        if k > 0 {
            assert(rest.take(k as int).last() == v@[hi - 1]);
            assert(trim_end(rest.take(k as int)) == rest.take(k as int));
        }
        assert(rest.take(k as int) =~= v@.subrange(lo as int, hi as int));
    }
    (lo, hi)
}

/// `str::trim`, as a new `String`.
pub fn trim_str(s: &str) -> (r: String)
    ensures
        r@ == trim(s@),
{
    let v = chars_of(s);
    let (lo, hi) = trim_bounds(v.as_slice());
    string_from_chars(slice_range(v.as_slice(), lo, hi).as_slice())
}

/// Whether `str::trim` would leave nothing.
pub fn is_blank_str(s: &str) -> (r: bool)
    ensures
        r == (trim(s@).len() == 0),
        r == is_blank(s@),
{
    let v = chars_of(s);
    let (lo, hi) = trim_bounds(v.as_slice());
    proof { lemma_trim_blank(s@); }
    lo == hi
}

/// The characters `v[lo..hi]`.
pub fn slice_range(v: &[char], lo: usize, hi: usize) -> (r: Vec<char>)
    requires
        lo <= hi <= v@.len(),
    ensures
        r@ == v@.subrange(lo as int, hi as int),
{
    let mut r: Vec<char> = Vec::new();
    let mut i = lo;
    while i < hi
        invariant
            lo <= i <= hi <= v@.len(),
            r@ == v@.subrange(lo as int, i as int),
        decreases hi - i,
    {
        r.push(v[i]);
        proof {
            assert(v@.subrange(lo as int, i + 1) =~= v@.subrange(lo as int, i as int).push(v@[i as int]));
        }
        i = i + 1;
    }
    r
}

// ---------------------------------------------------------------------
// Substring search
// ---------------------------------------------------------------------

pub open spec fn occurs_at(h: Seq<char>, n: Seq<char>, i: int) -> bool {
    0 <= i && i + n.len() <= h.len() && h.subrange(i, i + n.len()) == n
}

/// `str::contains` with a string pattern.
pub open spec fn contains_seq(h: Seq<char>, n: Seq<char>) -> bool {
    exists|i: int| occurs_at(h, n, i)
}

/// `str::starts_with` with a string pattern.
pub open spec fn starts_with(h: Seq<char>, n: Seq<char>) -> bool {
    n.len() <= h.len() && h.take(n.len() as int) == n
}

/// `str::ends_with` with a string pattern.
pub open spec fn ends_with(h: Seq<char>, n: Seq<char>) -> bool {
    n.len() <= h.len() && h.skip(h.len() - n.len()) == n
}

/// Whether `n` occurs in `h` at position `i`.
pub fn matches_at(h: &[char], n: &[char], i: usize) -> (r: bool)
    ensures
        r == occurs_at(h@, n@, i as int),
{
    if i > h.len() || n.len() > h.len() - i {
        return false;
    }
    let mut k: usize = 0;
    while k < n.len()
        invariant
            i + n@.len() <= h@.len(),
            h@.len() == h.len(),
            k <= n@.len(),
            forall|j: int| 0 <= j < k ==> h@[i + j] == n@[j],
        decreases n@.len() - k,
    {
        let idx = i + k;
        if h[idx] != n[k] {
            proof {
                assert(h@.subrange(i as int, i + n@.len())[k as int] != n@[k as int]);
            }
            return false;
        }
        k = k + 1;
    }
    assert(h@.subrange(i as int, i + n@.len()) =~= n@);
    true
}

pub fn contains(h: &[char], n: &[char]) -> (r: bool)
    ensures
        r == contains_seq(h@, n@),
{
    if n.len() > h.len() {
        return false;
    }
    if n.len() == 0 {
        assert(h@.subrange(0, 0) =~= n@);
        assert(occurs_at(h@, n@, 0));
        return true;
    }
    let mut i: usize = 0;
    while i <= h.len() - n.len()
        invariant
            0 < n@.len() <= h@.len(),
            i <= h@.len() - n@.len() + 1,
            forall|j: int| 0 <= j < i ==> !occurs_at(h@, n@, j),
        decreases h@.len() - n@.len() + 1 - i,
    {
        if matches_at(h, n, i) {
            return true;
        }
        i = i + 1;
    }
    false
}

pub fn has_prefix(h: &[char], n: &[char]) -> (r: bool)
    ensures
        r == starts_with(h@, n@),
{
    let r = matches_at(h, n, 0);
    proof {
        if n@.len() <= h@.len() {
            assert(h@.subrange(0, n@.len() as int) =~= h@.take(n@.len() as int));
        }
    }
    r
}

pub fn has_suffix(h: &[char], n: &[char]) -> (r: bool)
    ensures
        r == ends_with(h@, n@),
{
    if n.len() > h.len() {
        return false;
    }
    let r = matches_at(h, n, h.len() - n.len());
    proof {
        assert(h@.subrange(h@.len() - n@.len(), h@.len() as int) =~= h@.skip(h@.len() - n@.len()));
    }
    r
}

/// `contains` against a literal or other `&str` needle.
pub fn contains_str(h: &[char], n: &str) -> (r: bool)
    ensures
        r == contains_seq(h@, n@),
{
    let nv = chars_of(n);
    contains(h, nv.as_slice())
}

pub fn has_prefix_str(h: &[char], n: &str) -> (r: bool)
    ensures
        r == starts_with(h@, n@),
{
    let nv = chars_of(n);
    has_prefix(h, nv.as_slice())
}

pub fn has_suffix_str(h: &[char], n: &str) -> (r: bool)
    ensures
        r == ends_with(h@, n@),
{
    let nv = chars_of(n);
    has_suffix(h, nv.as_slice())
}

/// Character-sequence equality.
pub fn chars_eq(a: &[char], b: &[char]) -> (r: bool)
    ensures
        r == (a@ == b@),
{
    if a.len() != b.len() {
        return false;
    }
    let r = matches_at(a, b, 0);
    proof {
        if r {
            assert(a@.subrange(0, b@.len() as int) =~= a@);
        } else if a@ == b@ {
            assert(a@.subrange(0, b@.len() as int) =~= a@);
        }
    }
    r
}

pub fn str_eq(a: &str, b: &str) -> (r: bool)
    ensures
        r == (a@ == b@),
{
    let av = chars_of(a);
    let bv = chars_of(b);
    chars_eq(av.as_slice(), bv.as_slice())
}

// ---------------------------------------------------------------------
// Lines
// ---------------------------------------------------------------------

/// Index of the first `c` in `s`, or -1.
pub open spec fn first_index(s: Seq<char>, c: char) -> int
    decreases s.len(),
{
    if s.len() == 0 {
        -1
    } else if s[0] == c {
        0
    } else {
        let r = first_index(s.drop_first(), c);
        if r < 0 {
            -1
        } else {
            r + 1
        }
    }
}

pub proof fn lemma_first_index(s: Seq<char>, c: char)
    ensures
        -1 <= first_index(s, c) < s.len(),
        first_index(s, c) >= 0 ==> s[first_index(s, c)] == c,
        forall|j: int| 0 <= j < s.len() && (first_index(s, c) < 0 || j < first_index(s, c))
            ==> #[trigger] s[j] != c,
    decreases s.len(),
{
    if s.len() > 0 && s[0] != c {
        lemma_first_index(s.drop_first(), c);
        assert forall|j: int| 0 <= j < s.len() && (first_index(s, c) < 0 || j < first_index(s, c))
            implies #[trigger] s[j] != c by {
            if j > 0 {
                assert(s[j] == s.drop_first()[j - 1]);
            }
        }
    }
}

pub proof fn lemma_first_index_char(s: Seq<char>, c: char, i: int)
    requires
        0 <= i < s.len(),
        s[i] == c,
        forall|j: int| 0 <= j < i ==> #[trigger] s[j] != c,
    ensures
        first_index(s, c) == i,
{
    lemma_first_index(s, c);
}

pub proof fn lemma_first_index_none(s: Seq<char>, c: char)
    requires
        forall|j: int| 0 <= j < s.len() ==> #[trigger] s[j] != c,
    ensures
        first_index(s, c) == -1,
{
    lemma_first_index(s, c);
}

/// A line with its `\r` of a `\r\n` ending removed.
pub open spec fn strip_cr(s: Seq<char>) -> Seq<char> {
    if s.len() > 0 && s.last() == '\r' {
        s.drop_last()
    } else {
        s
    }
}

/// `str::lines`: split at `\n`, dropping a `\r` right before it; a final
/// line ending does not start an empty line.
pub open spec fn lines(s: Seq<char>) -> Seq<Seq<char>>
    decreases s.len(),
{
    if s.len() == 0 {
        seq![]
    } else {
        let i = first_index(s, '\n');
        if i < 0 {
            seq![s]
        } else {
            proof { lemma_first_index(s, '\n'); }
            seq![strip_cr(s.take(i))] + lines(s.skip(i + 1))
        }
    }
}

/// `text.lines().next().unwrap_or("")`.
pub open spec fn first_line(s: Seq<char>) -> Seq<char> {
    if lines(s).len() > 0 {
        lines(s)[0]
    } else {
        seq![]
    }
}

/// Index of the first `c` at or after `from`, or `v.len()`.
pub fn find_char_from(v: &[char], c: char, from: usize) -> (r: usize)
    requires
        from <= v@.len(),
    ensures
        from <= r <= v@.len(),
        r < v@.len() ==> v@[r as int] == c,
        forall|j: int| from <= j < r ==> #[trigger] v@[j] != c,
{
    let mut i = from;
    while i < v.len() && v[i] != c
        invariant
            from <= i <= v@.len(),
            forall|j: int| from <= j < i ==> #[trigger] v@[j] != c,
        decreases v@.len() - i,
    {
        i = i + 1;
    }
    i
}

proof fn lemma_first_index_skip(v: Seq<char>, from: int, r: int, c: char)
    requires
        0 <= from <= r <= v.len(),
        r < v.len() ==> v[r] == c,
        forall|j: int| from <= j < r ==> #[trigger] v[j] != c,
    ensures
        first_index(v.skip(from), c) == (if r < v.len() { r - from } else { -1 }),
{
    let s = v.skip(from);
    if r < v.len() {
        assert forall|j: int| 0 <= j < r - from implies #[trigger] s[j] != c by {
            assert(s[j] == v[j + from]);
        }
        lemma_first_index_char(s, c, r - from);
    } else {
        assert forall|j: int| 0 <= j < s.len() implies #[trigger] s[j] != c by {
            assert(s[j] == v[j + from]);
        }
        lemma_first_index_none(s, c);
    }
}

/// The lines of `v`, each as its own character vector.
pub fn split_lines(v: &[char]) -> (r: Vec<Vec<char>>)
    ensures
        r@.map_values(|l: Vec<char>| l@) == lines(v@),
{
    let mut r: Vec<Vec<char>> = Vec::new();
    let mut start: usize = 0;
    proof { assert(v@.skip(0) =~= v@); }
    while start < v.len()
        invariant
            start <= v@.len(),
            lines(v@) == r@.map_values(|l: Vec<char>| l@) + lines(v@.skip(start as int)),
        decreases v@.len() - start,
    {
        let i = find_char_from(v, '\n', start);
        let ghost rest = v@.skip(start as int);
        proof { lemma_first_index_skip(v@, start as int, i as int, '\n'); }
        let mut end = i;
        if i < v.len() && end > start && v[end - 1] == '\r' {
            end = end - 1;
        }
        let line = slice_range(v, start, end);
        let ghost old_r = r@;
        r.push(line);
        proof {
            if i < v@.len() {
                assert(rest.take(i - start) =~= v@.subrange(start as int, i as int));
                assert(rest.skip(i - start + 1) =~= v@.skip(i + 1));
                assert(strip_cr(rest.take(i - start)) =~= line@);
                assert(lines(rest) == seq![line@] + lines(v@.skip(i + 1)));
            } else {
                assert(rest =~= v@.subrange(start as int, i as int));
                assert(lines(rest) == seq![rest]);
                assert(v@.skip(v@.len() as int) =~= Seq::<char>::empty());
                assert(lines(v@.skip(v@.len() as int)) == Seq::<Seq<char>>::empty());
            }
            assert(r@.map_values(|l: Vec<char>| l@) =~= old_r.map_values(|l: Vec<char>| l@).push(line@));
        }
        start = if i < v.len() { i + 1 } else { i };
    }
    proof {
        assert(v@.skip(start as int) =~= Seq::<char>::empty());
    }
    r
}


/// `text.lines().next().unwrap_or("")`, as a new `String`.
pub fn first_line_of(v: &[char]) -> (r: String)
    ensures
        r@ == first_line(v@),
{
    let i = find_char_from(v, '\n', 0);
    proof {
        lemma_first_index_skip(v@, 0, i as int, '\n');
        assert(v@.skip(0) =~= v@);
    }
    if v.len() == 0 {
        return String::new();
    }
    let mut end = i;
    if i < v.len() && end > 0 && v[end - 1] == '\r' {
        end = end - 1;
    }
    let line = slice_range(v, 0, end);
    proof {
        if i < v@.len() {
            assert(strip_cr(v@.take(i as int)) =~= line@);
        } else {
            assert(v@ =~= line@);
        }
    }
    string_from_chars(line.as_slice())
}

pub fn first_line_str(s: &str) -> (r: String)
    ensures
        r@ == first_line(s@),
{
    let v = chars_of(s);
    first_line_of(v.as_slice())
}

// ---------------------------------------------------------------------
// Decimal rendering and joining
// ---------------------------------------------------------------------

pub open spec fn digit_char(d: nat) -> char {
    "0123456789"@[d as int]
}

/// The decimal rendering of `n` (`Display` for unsigned integers).
pub open spec fn decimal(n: nat) -> Seq<char>
    decreases n,
{
    if n < 10 {
        seq![digit_char(n)]
    } else {
        decimal(n / 10).push(digit_char(n % 10))
    }
}

/// `n.to_string()` for an unsigned integer.
pub fn decimal_string(n: u64) -> (r: String)
    ensures
        r@ == decimal(n as nat),
    decreases n,
{
    let digits = chars_of("0123456789");
    proof { reveal_strlit("0123456789"); }
    if n < 10 {
        let mut r = String::new();
        push_char(&mut r, digits[n as usize]);
        assert(r@ =~= decimal(n as nat));
        r
    } else {
        let mut r = decimal_string(n / 10);
        push_char(&mut r, digits[(n % 10) as usize]);
        r
    }
}

/// `items.join(sep)`.
pub open spec fn join(items: Seq<Seq<char>>, sep: Seq<char>) -> Seq<char>
    decreases items.len(),
{
    if items.len() == 0 {
        seq![]
    } else if items.len() == 1 {
        items[0]
    } else {
        join(items.drop_last(), sep) + sep + items.last()
    }
}

pub open spec fn views(items: Seq<String>) -> Seq<Seq<char>> {
    items.map_values(|s: String| s@)
}

/// `items.join(sep)` over owned strings.
pub fn join_strings(items: &[String], sep: &str) -> (r: String)
    ensures
        r@ == join(views(items@), sep@),
{
    let mut r = String::new();
    let mut i: usize = 0;
    while i < items.len()
        invariant
            i <= items@.len(),
            r@ == join(views(items@.take(i as int)), sep@),
        decreases items@.len() - i,
    {
        let ghost before = views(items@.take(i as int));
        if i > 0 {
            push_str(&mut r, sep);
        }
        push_str(&mut r, items[i].as_str());
        proof {
            let after = views(items@.take(i + 1));
            assert(after.drop_last() =~= before);
            assert(after.last() == items@[i as int]@);
            if i == 0 {
                assert(after.len() == 1);
            }
        }
        i = i + 1;
    }
    proof { assert(items@.take(items@.len() as int) =~= items@); }
    r
}

// ---------------------------------------------------------------------
// Truncation
// ---------------------------------------------------------------------

/// Whether cutting `s` to its first `max` UTF-8 bytes is well-defined:
/// `&s[..max]` panics unless it lands on a character boundary.
pub open spec fn byte_cut_ok(s: Seq<char>, max: int) -> bool {
    encode_utf8(s).len() <= max || is_char_boundary(encode_utf8(s), max)
}

/// `s` when it fits in `max` UTF-8 bytes, else its first `max` bytes
/// followed by `marker`.
pub open spec fn byte_truncate(s: Seq<char>, max: int, marker: Seq<char>) -> Seq<char> {
    if encode_utf8(s).len() <= max {
        s
    } else {
        decode_utf8(encode_utf8(s).take(max)) + marker
    }
}

/// `if s.len() <= max { s } else { format!("{}{marker}", &s[..max]) }`.
pub fn truncate_bytes(s: &str, max: usize, marker: &str) -> (r: String)
    requires
        byte_cut_ok(s@, max as int),
    ensures
        r@ == byte_truncate(s@, max as int, marker@),
{
    let bytes = s.as_bytes();
    if bytes.len() <= max {
        copy_str(s)
    } else {
        let (a, _b) = s.split_at(max);
        proof {
            encode_utf8_decode_utf8(a@);
            assert(encode_utf8(s@).take(max as int) =~= encode_utf8(s@).subrange(0, max as int));
        }
        let mut r = copy_str(a);
        push_str(&mut r, marker);
        r
    }
}


// ---------------------------------------------------------------------
// Splitting on a separator character
// ---------------------------------------------------------------------

/// `str::split(sep)` with a single-character separator: always at least
/// one piece; adjacent separators give empty pieces.
pub open spec fn split_seq(s: Seq<char>, sep: char) -> Seq<Seq<char>>
    decreases s.len(),
{
    let i = first_index(s, sep);
    if i < 0 {
        seq![s]
    } else {
        proof { lemma_first_index(s, sep); }
        seq![s.take(i)] + split_seq(s.skip(i + 1), sep)
    }
}

/// The pieces of `v` between occurrences of `sep`.
pub fn split_on(v: &[char], sep: char) -> (r: Vec<Vec<char>>)
    ensures
        r@.map_values(|l: Vec<char>| l@) == split_seq(v@, sep),
{
    let mut r: Vec<Vec<char>> = Vec::new();
    let mut start: usize = 0;
    proof { assert(v@.skip(0) =~= v@); }
    loop
        invariant
            start <= v@.len(),
            split_seq(v@, sep) == r@.map_values(|l: Vec<char>| l@) + split_seq(v@.skip(start as int), sep),
        decreases v@.len() - start,
    {
        let i = find_char_from(v, sep, start);
        let ghost rest = v@.skip(start as int);
        proof { lemma_first_index_skip(v@, start as int, i as int, sep); }
        let piece = slice_range(v, start, i);
        let ghost old_r = r@;
        r.push(piece);
        proof {
            assert(r@.map_values(|l: Vec<char>| l@) =~= old_r.map_values(|l: Vec<char>| l@).push(piece@));
        }
        if i < v.len() {
            proof {
                assert(rest.take(i - start) =~= piece@);
                assert(rest.skip(i - start + 1) =~= v@.skip(i + 1));
                assert(split_seq(rest, sep) == seq![piece@] + split_seq(v@.skip(i + 1), sep));
                assert(split_seq(v@, sep) == r@.map_values(|l: Vec<char>| l@) + split_seq(v@.skip(i + 1), sep));
            }
            start = i + 1;
        } else {
            proof {
                assert(rest =~= piece@);
                assert(split_seq(rest, sep) == seq![piece@]);
                assert(split_seq(v@, sep) =~= r@.map_values(|l: Vec<char>| l@));
            }
            return r;
        }
    }
}


/// Whether `s` can be cut at byte `max` (it fits, or `max` is a
/// character boundary).
pub fn fits_or_boundary(s: &str, max: usize) -> (r: bool)
    ensures
        r == byte_cut_ok(s@, max as int),
{
    let bytes = s.as_bytes();
    bytes.len() <= max || s.is_char_boundary(max)
}


// ---------------------------------------------------------------------
// Parsing unsigned decimals
// ---------------------------------------------------------------------

pub open spec fn is_digit(c: char) -> bool {
    '0' <= c <= '9'
}

pub open spec fn digit_value(c: char) -> nat {
    (c as u32 - '0' as u32) as nat
}

/// The value of a string of decimal digits.
pub open spec fn digits_value(s: Seq<char>) -> nat
    decreases s.len(),
{
    if s.len() == 0 {
        0
    } else {
        digits_value(s.drop_last()) * 10 + digit_value(s.last())
    }
}

proof fn lemma_digit_chars()
    ensures
        forall|d: nat| d < 10 ==> is_digit(#[trigger] digit_char(d)) && digit_value(digit_char(d)) == d,
{
    reveal_strlit("0123456789");
}

/// The decimal rendering of `n` is one or more ASCII digits, without a
/// sign, whose value is `n`.
pub proof fn lemma_decimal_digits(n: nat)
    ensures
        decimal(n).len() > 0,
        all_digits(decimal(n)),
        digits_value(decimal(n)) == n,
    decreases n,
{
    lemma_digit_chars();
    if n >= 10 {
        lemma_decimal_digits(n / 10);
        let s = decimal(n);
        assert(s.drop_last() =~= decimal(n / 10));
        assert(s.last() == digit_char(n % 10));
        assert(digit_value(digit_char(n % 10)) == n % 10);
        assert(digits_value(s) == digits_value(decimal(n / 10)) * 10 + n % 10);
        assert(n == (n / 10) * 10 + n % 10) by (nonlinear_arith);
        assert forall|i: int| 0 <= i < s.len() implies is_digit(#[trigger] s[i]) by {
            if i < s.len() - 1 {
                assert(s[i] == decimal(n / 10)[i]);
            }
        }
    } else {
        let s = decimal(n);
        assert(s.drop_last() =~= Seq::<char>::empty());
        assert(digits_value(Seq::<char>::empty()) == 0);
        assert(s.last() == digit_char(n));
        assert(digit_value(digit_char(n)) == n);
    }
}

/// Parsing the decimal rendering of a number gives the number back.
pub proof fn lemma_decimal_parses_back(n: nat)
    requires
        n <= usize::MAX,
    ensures
        parsed_usize(decimal(n)) == Some(n),
{
    lemma_decimal_digits(n);
    lemma_digit_chars();
    let d = decimal(n);
    assert(is_digit(d[0]));
    assert(d[0] != '+');
    assert(unsigned_part(d) == d);
}

/// `str::parse::<usize>`: an optional `+`, then one or more ASCII digits
/// (nothing else, no whitespace), whose value fits in a `usize`.
pub open spec fn unsigned_part(s: Seq<char>) -> Seq<char> {
    if s.len() > 0 && s[0] == '+' {
        s.drop_first()
    } else {
        s
    }
}

pub open spec fn all_digits(d: Seq<char>) -> bool {
    forall|i: int| 0 <= i < d.len() ==> is_digit(#[trigger] d[i])
}

pub open spec fn parsed_usize(s: Seq<char>) -> Option<nat> {
    let d = unsigned_part(s);
    if d.len() > 0 && all_digits(d) && digits_value(d) <= usize::MAX {
        Some(digits_value(d))
    } else {
        None
    }
}

proof fn lemma_digits_value_monotone(d: Seq<char>, i: int)
    requires
        0 <= i <= d.len(),
        forall|k: int| 0 <= k < d.len() ==> is_digit(#[trigger] d[k]),
    ensures
        digits_value(d.take(i)) <= digits_value(d),
    decreases d.len() - i,
{
    if i < d.len() {
        lemma_digits_value_monotone(d, i + 1);
        assert(d.take(i + 1).drop_last() =~= d.take(i));
    } else {
        assert(d.take(i) =~= d);
    }
}

pub fn parse_usize(s: &str) -> (r: Option<usize>)
    ensures
        match r {
            Some(n) => parsed_usize(s@) == Some(n as nat),
            None => parsed_usize(s@) is None,
        },
{
    let v = chars_of(s);
    let start: usize = if v.len() > 0 && v[0] == '+' { 1 } else { 0 };
    let ghost d = unsigned_part(s@);
    proof {
        assert(d =~= v@.skip(start as int));
    }
    if start >= v.len() {
        return None;
    }
    let mut value: usize = 0;
    let mut i: usize = start;
    while i < v.len()
        invariant
            start <= i <= v@.len(),
            start < v@.len(),
            d == v@.skip(start as int),
            d == unsigned_part(s@),
            v@ == s@,
            forall|k: int| 0 <= k < i - start ==> is_digit(#[trigger] d[k]),
            value as nat == digits_value(d.take(i - start)),
        decreases v@.len() - i,
    {
        let c = v[i];
        if !('0' <= c && c <= '9') {
            proof {
                assert(!is_digit(d[i - start]));
                assert(!all_digits(d));
                assert(parsed_usize(s@) is None);
            }
            return None;
        }
        let digit = (c as u32 - '0' as u32) as usize;
        proof {
            assert(d.take(i - start + 1).drop_last() =~= d.take(i - start));
            assert(d.take(i - start + 1).last() == c);
        }
        let next = match value.checked_mul(10) {
            Some(t) => t.checked_add(digit),
            None => None,
        };
        match next {
            Some(n) => {
                value = n;
            },
            None => {
                proof {
                    assert(digits_value(d.take(i - start + 1)) == value * 10 + digit);
                    assert(digits_value(d.take(i - start + 1)) > usize::MAX);
                    if all_digits(d) {
                        lemma_digits_value_monotone(d, i - start + 1);
                    }
                    assert(parsed_usize(s@) is None);
                }
                return None;
            },
        }
        i = i + 1;
    }
    proof {
        assert(d.take(i - start) =~= d);
    }
    Some(value)
}

/// A JSON number's text read as a `u64` (`as_u64`): plain digits whose
/// value fits; a sign, fraction or exponent does not read.
pub open spec fn parsed_u64_digits(s: Seq<char>) -> Option<nat> {
    if s.len() > 0 && all_digits(s) && digits_value(s) <= u64::MAX {
        Some(digits_value(s))
    } else {
        None
    }
}

pub fn parse_u64_digits(s: &str) -> (r: Option<u64>)
    ensures
        match r {
            Some(n) => parsed_u64_digits(s@) == Some(n as nat),
            None => parsed_u64_digits(s@) is None,
        },
{
    let v = chars_of(s);
    if v.len() == 0 {
        return None;
    }
    let mut value: u64 = 0;
    let mut i: usize = 0;
    while i < v.len()
        invariant
            i <= v@.len(),
            v@ == s@,
            v@.len() > 0,
            forall|k: int| 0 <= k < i ==> is_digit(#[trigger] s@[k]),
            value as nat == digits_value(s@.take(i as int)),
        decreases v@.len() - i,
    {
        let c = v[i];
        if !('0' <= c && c <= '9') {
            proof {
                assert(!is_digit(s@[i as int]));
            }
            return None;
        }
        let digit = (c as u32 - '0' as u32) as u64;
        proof {
            assert(s@.take(i + 1).drop_last() =~= s@.take(i as int));
            assert(s@.take(i + 1).last() == c);
        }
        let next = match value.checked_mul(10) {
            Some(t) => t.checked_add(digit),
            None => None,
        };
        match next {
            Some(n) => {
                value = n;
            },
            None => {
                proof {
                    assert(digits_value(s@.take(i + 1)) == value * 10 + digit);
                    if all_digits(s@) {
                        lemma_digits_value_monotone(s@, i + 1);
                    }
                }
                return None;
            },
        }
        i = i + 1;
    }
    proof {
        assert(s@.take(i as int) =~= s@);
    }
    Some(value)
}

} // verus!
