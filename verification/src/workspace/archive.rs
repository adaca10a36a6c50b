//! The archive of every change request ksforge was asked to act on,
//! under `<workspace_root>/.ksforge/change-requests/`: each gets a
//! `CR-<6 base62 digits>` id drawn at random (no shared counter, so
//! concurrent runs never race on one), a markdown snapshot of its text,
//! and a JSON record tying it to the execution it started. Writing the
//! files is the caller's part.
use vstd::prelude::*;

use crate::domain::change_request::ChangeRequest;
use crate::domain::execution::{random_u128, ExecutionId, Timestamp};
use crate::path::{join_path, joined};
use crate::text::{chars_of, copy_str, push_char, push_str, trim, trim_str};

verus! {

pub open spec fn alphabet() -> Seq<char> {
    "0123456789ABCDEFGHIJKLMNOPQRSTUVWXYZabcdefghijklmnopqrstuvwxyz"@
}

/// Every id has exactly this many base62 digits.
pub const ID_DIGITS: usize = 6;

/// 62 to the power `k`.
pub open spec fn pow62(k: nat) -> nat
    decreases k,
{
    if k == 0 {
        1
    } else {
        62 * pow62((k - 1) as nat)
    }
}

/// The base62 digits of `v`, most significant first, with no leading
/// zeros (`0` is `"0"`).
pub open spec fn base62(v: nat) -> Seq<char>
    decreases v,
{
    if v < 62 {
        seq![alphabet()[v as int]]
    } else {
        base62(v / 62).push(alphabet()[(v % 62) as int])
    }
}

/// `s` left-padded with `0` to `width` characters.
pub open spec fn pad_zeros(s: Seq<char>, width: nat) -> Seq<char> {
    if s.len() >= width {
        s
    } else {
        Seq::new((width - s.len()) as nat, |i: int| '0') + s
    }
}

pub open spec fn is_base62_digit(c: char) -> bool {
    ('0' <= c <= '9') || ('A' <= c <= 'Z') || ('a' <= c <= 'z')
}

pub proof fn lemma_alphabet()
    ensures
        alphabet().len() == 62,
        forall|i: int| 0 <= i < 62 ==> is_base62_digit(#[trigger] alphabet()[i]),
        alphabet()[0] == '0',
{
    reveal_strlit("0123456789ABCDEFGHIJKLMNOPQRSTUVWXYZabcdefghijklmnopqrstuvwxyz");
}

/// The value of a base62 digit: its place in the alphabet.
pub open spec fn digit_value62(c: char) -> int {
    if '0' <= c <= '9' {
        c as int - '0' as int
    } else if 'A' <= c <= 'Z' {
        c as int - 'A' as int + 10
    } else {
        c as int - 'a' as int + 36
    }
}

/// The number a string of base62 digits spells, most significant first.
pub open spec fn from_base62(s: Seq<char>) -> int
    decreases s.len(),
{
    if s.len() == 0 {
        0
    } else {
        from_base62(s.drop_last()) * 62 + digit_value62(s.last())
    }
}

proof fn lemma_alphabet_places()
    ensures
        forall|i: int| 0 <= i < 62 ==> digit_value62(#[trigger] alphabet()[i]) == i,
{
    reveal_strlit("0123456789ABCDEFGHIJKLMNOPQRSTUVWXYZabcdefghijklmnopqrstuvwxyz");
}

/// Reading the digits back gives the value: base62 loses nothing.
pub proof fn lemma_base62_round_trip(v: nat)
    ensures
        from_base62(base62(v)) == v,
    decreases v,
{
    lemma_alphabet_places();
    lemma_alphabet();
    if v < 62 {
        assert(base62(v).drop_last() =~= Seq::<char>::empty());
        assert(from_base62(Seq::<char>::empty()) == 0);
        assert(digit_value62(alphabet()[v as int]) == v);
    } else {
        lemma_base62_round_trip(v / 62);
        let d = (v % 62) as int;
        assert(0 <= d < 62);
        assert(base62(v).drop_last() =~= base62(v / 62));
        assert(base62(v).last() == alphabet()[d]);
        assert(digit_value62(alphabet()[d]) == d);
        assert(from_base62(base62(v)) == from_base62(base62(v / 62)) * 62 + d);
        assert(v == (v / 62) * 62 + v % 62) by (nonlinear_arith);
    }
}

/// Only zero is written with a leading `0`: every other value starts with
/// a non-zero digit.
pub proof fn lemma_base62_leading_digit(v: nat)
    ensures
        base62(v).len() >= 1,
        (base62(v)[0] == '0') <==> v == 0,
    decreases v,
{
    lemma_alphabet_places();
    lemma_alphabet();
    if v >= 62 {
        lemma_base62_leading_digit(v / 62);
        assert(v / 62 >= 1);
        assert(base62(v)[0] == base62(v / 62)[0]);
    } else if base62(v)[0] == '0' {
        assert(digit_value62(alphabet()[v as int]) == v);
    }
}

pub proof fn lemma_base62_digits(v: nat)
    ensures
        base62(v).len() >= 1,
        forall|i: int| 0 <= i < base62(v).len() ==> is_base62_digit(#[trigger] base62(v)[i]),
    decreases v,
{
    lemma_alphabet();
    if v >= 62 {
        lemma_base62_digits(v / 62);
        let s = base62(v / 62);
        assert forall|i: int| 0 <= i < base62(v).len() implies is_base62_digit(#[trigger] base62(v)[i]) by {
            if i < s.len() {
                assert(base62(v)[i] == s[i]);
            }
        }
    }
}

proof fn lemma_div62(v: nat, k: nat)
    requires
        v < 62 * k,
    ensures
        v / 62 < k,
{
    assert(v / 62 < k) by (nonlinear_arith)
        requires
            v < 62 * k,
    ;
}

pub proof fn lemma_base62_len(v: nat, k: nat)
    requires
        k >= 1,
        v < pow62(k),
    ensures
        base62(v).len() <= k,
    decreases k,
{
    if v >= 62 {
        assert(k >= 2) by {
            if k == 1 {
                assert(pow62(1) == 62 * pow62(0));
            }
        }
        lemma_div62(v, pow62((k - 1) as nat));
        lemma_base62_len(v / 62, (k - 1) as nat);
    }
}

/// `value` in base62, most significant digit first.
pub fn base62_encode(value: u128) -> (r: String)
    ensures
        r@ == base62(value as nat),
    decreases value,
{
    let digits = chars_of("0123456789ABCDEFGHIJKLMNOPQRSTUVWXYZabcdefghijklmnopqrstuvwxyz");
    proof {
        lemma_alphabet();
    }
    if value < 62 {
        let mut r = String::new();
        push_char(&mut r, digits[value as usize]);
        proof {
            assert(r@ =~= base62(value as nat));
        }
        r
    } else {
        let mut r = base62_encode(value / 62);
        push_char(&mut r, digits[(value % 62) as usize]);
        r
    }
}

/// [`base62_encode`] left-padded with `0` to at least `width` digits, so
/// every id has the same length.
pub fn base62_encode_padded(value: u128, width: usize) -> (r: String)
    ensures
        r@ == pad_zeros(base62(value as nat), width as nat),
{
    let encoded = base62_encode(value);
    let n = encoded.unicode_len();
    if n >= width {
        return encoded;
    }
    let mut r = String::new();
    let mut i: usize = 0;
    while i < width - n
        invariant
            i <= width - n,
            n == encoded@.len(),
            n < width,
            r@ == Seq::new(i as nat, |k: int| '0'),
        decreases width - n - i,
    {
        push_char(&mut r, '0');
        proof {
            assert(r@ =~= Seq::new((i + 1) as nat, |k: int| '0'));
        }
        i = i + 1;
    }
    push_str(&mut r, encoded.as_str());
    r
}

/// A change request id: `CR-` and six base62 digits.
pub open spec fn is_change_request_id(s: Seq<char>) -> bool {
    &&& s.len() == 3 + ID_DIGITS
    &&& s.take(3) == "CR-"@
    &&& forall|i: int| 3 <= i < s.len() ==> is_base62_digit(#[trigger] s[i])
}

/// A fresh id: 128 random bits reduced modulo 62^6 (so every digit varies,
/// not only the low ones), in base62, padded to six digits.
pub fn new_id() -> (r: String)
    ensures
        is_change_request_id(r@),
{
    let random = random_u128() % 56800235584u128;
    let digits = base62_encode_padded(random, ID_DIGITS);
    proof {
        reveal_with_fuel(pow62, 7);
        assert(pow62(6) == 56800235584);
        lemma_base62_len(random as nat, 6);
        lemma_base62_digits(random as nat);
        let b = base62(random as nat);
        assert forall|i: int| 0 <= i < digits@.len() implies is_base62_digit(#[trigger] digits@[i]) by {
            if b.len() < 6 {
                let pad = 6 - b.len();
                if i >= pad {
                    assert(digits@[i] == b[i - pad]);
                }
            }
        }
    }
    let mut r = copy_str("CR-");
    push_str(&mut r, digits.as_str());
    proof {
        reveal_strlit("CR-");
        assert(r@.take(3) =~= "CR-"@);
        assert forall|i: int| 3 <= i < r@.len() implies is_base62_digit(#[trigger] r@[i]) by {
            assert(r@[i] == digits@[i - 3]);
        }
    }
    r
}

pub struct ChangeRequestArchive {
    root: String,
}

/// The record of one archived change request.
pub struct ChangeRequestRecord {
    pub id: String,
    pub text: String,
    pub capability: String,
    pub execution_id: ExecutionId,
    /// The markdown snapshot, relative to the workspace root.
    pub markdown_file: String,
    pub created_at: Timestamp,
}

/// What archiving a change request writes: the markdown snapshot and the
/// JSON record, each by file name inside the archive directory.
pub struct ArchiveEntry {
    pub record: ChangeRequestRecord,
    pub markdown_name: String,
    /// The trimmed text and a final newline.
    pub markdown_body: String,
    pub json_name: String,
}

pub open spec fn archive_root(workspace_root: Seq<char>) -> Seq<char> {
    joined(joined(workspace_root, ".ksforge"@), "change-requests"@)
}

impl ChangeRequestArchive {
    pub closed spec fn root_spec(&self) -> Seq<char> {
        self.root@
    }

    pub fn new(workspace_root: &str) -> (r: ChangeRequestArchive)
        ensures
            r.root_spec() == archive_root(workspace_root@),
    {
        let k = join_path(workspace_root, ".ksforge");
        ChangeRequestArchive { root: join_path(k.as_str(), "change-requests") }
    }

    pub fn root(&self) -> (r: &String)
        ensures
            r@ == self.root_spec(),
    {
        &self.root
    }

    /// What archiving `change_request` under the id `id` writes, stamped
    /// `created_at`.
    pub fn entry_for(
        &self,
        id: String,
        change_request: &ChangeRequest,
        capability: &str,
        execution_id: &ExecutionId,
        created_at: Timestamp,
    ) -> (r: ArchiveEntry)
        ensures
            r.record.id@ == id@,
            r.record.text@ == change_request@,
            r.record.capability@ == capability@,
            r.record.execution_id@ == execution_id@,
            r.record.markdown_file@ == ".ksforge/change-requests/"@ + id@ + ".md"@,
            r.record.created_at == created_at,
            r.markdown_name@ == id@ + ".md"@,
            r.markdown_body@ == trim(change_request@) + "\n"@,
            r.json_name@ == id@ + ".json"@,
    {
        let mut markdown_name = id.clone();
        push_str(&mut markdown_name, ".md");
        let mut json_name = id.clone();
        push_str(&mut json_name, ".json");
        let mut markdown_file = copy_str(".ksforge/change-requests/");
        push_str(&mut markdown_file, markdown_name.as_str());
        let mut markdown_body = trim_str(change_request.text.as_str());
        push_str(&mut markdown_body, "\n");
        ArchiveEntry {
            record: ChangeRequestRecord {
                id,
                text: change_request.text.clone(),
                capability: copy_str(capability),
                execution_id: execution_id.clone(),
                markdown_file,
                created_at,
            },
            markdown_name,
            markdown_body,
            json_name,
        }
    }

    /// A fresh entry for `change_request`: a new random id, stamped now.
    pub fn record_for(&self, change_request: &ChangeRequest, capability: &str, execution_id: &ExecutionId) -> (r: ArchiveEntry)
        ensures
            is_change_request_id(r.record.id@),
            r.record.text@ == change_request@,
            r.record.capability@ == capability@,
            r.record.execution_id@ == execution_id@,
            r.record.markdown_file@ == ".ksforge/change-requests/"@ + r.record.id@ + ".md"@,
            r.markdown_name@ == r.record.id@ + ".md"@,
            r.markdown_body@ == trim(change_request@) + "\n"@,
            r.json_name@ == r.record.id@ + ".json"@,
    {
        let id = new_id();
        let at = crate::domain::execution::now();
        self.entry_for(id, change_request, capability, execution_id, at)
    }
}

} // verus!
