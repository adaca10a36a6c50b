//! Reading pull request comments: a `/ksforge choose <option>` answers a
//! paused execution's gate; a `/ksforge implement ...` or
//! `/ksforge fix ...` asks for a follow-up run on the pull request's own
//! branch. And whether a commenter may ask at all.
use vstd::prelude::*;

use crate::domain::error::KsforgeError;
use crate::json::{json_parse, member_str, parse_json_value, Json};
use crate::text::{
    char_is_whitespace, chars_eq, chars_of, copy_str, is_whitespace, join, lines, split_lines,
    starts_with, string_from_chars, trim, trim_bounds, trim_start,
};

verus! {

pub open spec fn no_whitespace(s: Seq<char>) -> bool {
    forall|i: int| 0 <= i < s.len() ==> !is_whitespace(#[trigger] s[i])
}

/// The option a line picks: the line, trimmed, is `/ksforge choose`,
/// whitespace, and one non-empty word.
pub open spec fn choose_in_line(line: Seq<char>) -> Option<Seq<char>> {
    let t = trim(line);
    let p = "/ksforge choose"@;
    if starts_with(t, p) && t.len() > p.len() && is_whitespace(t[p.len() as int]) {
        let o = trim(t.skip(p.len() as int));
        if o.len() > 0 && no_whitespace(o) {
            Some(o)
        } else {
            None
        }
    } else {
        None
    }
}

pub open spec fn first_choose(ls: Seq<Seq<char>>) -> Option<Seq<char>>
    decreases ls.len(),
{
    if ls.len() == 0 {
        None
    } else {
        match choose_in_line(ls[0]) {
            Some(o) => Some(o),
            None => first_choose(ls.drop_first()),
        }
    }
}

fn trimmed(v: &[char]) -> (r: Vec<char>)
    ensures
        r@ == trim(v@),
{
    let (lo, hi) = trim_bounds(v);
    crate::text::slice_range(v, lo, hi)
}

fn has_whitespace(v: &[char]) -> (r: bool)
    ensures
        r == !no_whitespace(v@),
{
    let mut i: usize = 0;
    while i < v.len()
        invariant
            i <= v@.len(),
            forall|k: int| 0 <= k < i ==> !is_whitespace(#[trigger] v@[k]),
        decreases v@.len() - i,
    {
        if char_is_whitespace(v[i]) {
            return true;
        }
        i = i + 1;
    }
    false
}

fn choose_of(line: &[char]) -> (r: Option<String>)
    ensures
        crate::json::opt_view(r) == choose_in_line(line@),
{
    let t = trimmed(line);
    let p = chars_of("/ksforge choose");
    if !crate::text::has_prefix(t.as_slice(), p.as_slice()) {
        return None;
    }
    if t.len() <= p.len() || !char_is_whitespace(t[p.len()]) {
        return None;
    }
    let rest = crate::text::slice_range(t.as_slice(), p.len(), t.len());
    proof {
        assert(rest@ =~= t@.skip(p@.len() as int));
    }
    let o = trimmed(rest.as_slice());
    if o.len() > 0 && !has_whitespace(o.as_slice()) {
        Some(string_from_chars(o.as_slice()))
    } else {
        None
    }
}

/// The option of the first `/ksforge choose <option>` line in a comment
/// body, if any.
pub fn parse_choose_command(body: &str) -> (r: Option<String>)
    ensures
        crate::json::opt_view(r) == first_choose(lines(body@)),
{
    let v = chars_of(body);
    let ls = split_lines(v.as_slice());
    let ghost all = ls@.map_values(|l: Vec<char>| l@);
    proof {
        assert(all.skip(0) =~= all);
    }
    let mut i: usize = 0;
    while i < ls.len()
        invariant
            i <= ls@.len(),
            all == ls@.map_values(|l: Vec<char>| l@),
            all == lines(body@),
            first_choose(all) == first_choose(all.skip(i as int)),
        decreases ls@.len() - i,
    {
        proof {
            let rest = all.skip(i as int);
            assert(rest[0] == ls@[i as int]@);
            assert(rest.drop_first() =~= all.skip(i + 1));
        }
        let o = choose_of(ls[i].as_slice());
        if o.is_some() {
            return o;
        }
        i = i + 1;
    }
    proof {
        assert(all.skip(i as int) =~= Seq::<Seq<char>>::empty());
    }
    None
}

/// A request, in a pull request comment, to run a writing capability
/// against the pull request's own branch.
#[derive(Debug, PartialEq, Eq)]
pub struct FollowUpCommand {
    pub capability: String,
    pub change_request: String,
}

/// What follows the trigger on its own line: nothing when the line is
/// exactly the trigger, the trimmed rest when the trigger is followed by a
/// space, and no match otherwise (so a word that merely starts with the
/// capability's name does not count).
pub open spec fn inline_after(t: Seq<char>, trigger: Seq<char>) -> Option<Seq<char>> {
    if t == trigger {
        Some(seq![])
    } else if starts_with(t, trigger + " "@) {
        Some(trim(t.skip(trigger.len() + 1 as int)))
    } else {
        None
    }
}

/// The change request: the trigger line's own remainder, if any, then
/// every following line, joined and trimmed.
pub open spec fn follow_up_text(inline: Seq<char>, rest: Seq<Seq<char>>) -> Seq<char> {
    trim(join((if inline.len() > 0 { seq![inline] } else { seq![] }) + rest, "\n"@))
}

pub open spec fn follow_up_made(capability: Seq<char>, text: Seq<char>) -> Option<(Seq<char>, Seq<char>)> {
    if text.len() == 0 {
        None
    } else {
        Some((capability, text))
    }
}

/// The first line that is an `implement` or `fix` trigger decides; a
/// trigger with no change request at all asks for nothing. `review` and
/// `explain` never write, so they have nothing to push back and are no
/// triggers.
pub open spec fn follow_up_from(ls: Seq<Seq<char>>) -> Option<(Seq<char>, Seq<char>)>
    decreases ls.len(),
{
    if ls.len() == 0 {
        None
    } else {
        let t = trim(ls[0]);
        match inline_after(t, "/ksforge implement"@) {
            Some(inl) => follow_up_made("implement"@, follow_up_text(inl, ls.drop_first())),
            None => match inline_after(t, "/ksforge fix"@) {
                Some(inl) => follow_up_made("fix"@, follow_up_text(inl, ls.drop_first())),
                None => follow_up_from(ls.drop_first()),
            },
        }
    }
}

fn inline_of(t: &Vec<char>, trigger: &str) -> (r: Option<Vec<char>>)
    ensures
        match r {
            Some(v) => inline_after(t@, trigger@) == Some(v@),
            None => inline_after(t@, trigger@) is None,
        },
{
    let p = chars_of(trigger);
    if chars_eq(t.as_slice(), p.as_slice()) {
        return Some(Vec::new());
    }
    let mut ps = p.clone();
    ps.push(' ');
    proof {
        assert(ps@ =~= trigger@ + " "@) by {
            reveal_strlit(" ");
        }
    }
    if crate::text::has_prefix(t.as_slice(), ps.as_slice()) {
        let rest = crate::text::slice_range(t.as_slice(), ps.len(), t.len());
        proof {
            assert(rest@ =~= t@.skip(trigger@.len() + 1 as int));
        }
        Some(trimmed(rest.as_slice()))
    } else {
        None
    }
}

fn make_follow_up(capability: &str, inline: Vec<char>, ls: &Vec<Vec<char>>, from: usize) -> (r: Option<FollowUpCommand>)
    requires
        from <= ls@.len(),
    ensures
        match r {
            Some(c) => follow_up_made(
                capability@,
                follow_up_text(inline@, ls@.map_values(|l: Vec<char>| l@).skip(from as int)),
            ) == Some((c.capability@, c.change_request@)),
            None => follow_up_made(
                capability@,
                follow_up_text(inline@, ls@.map_values(|l: Vec<char>| l@).skip(from as int)),
            ) is None,
        },
{
    let ghost all = ls@.map_values(|l: Vec<char>| l@);
    let mut parts: Vec<String> = Vec::new();
    if inline.len() > 0 {
        parts.push(string_from_chars(inline.as_slice()));
    }
    let ghost first = crate::text::views(parts@);
    proof {
        if inline@.len() > 0 {
            assert(first =~= seq![inline@]);
        } else {
            assert(first =~= Seq::<Seq<char>>::empty());
        }
    }
    let mut i: usize = from;
    while i < ls.len()
        invariant
            from <= i <= ls@.len(),
            all == ls@.map_values(|l: Vec<char>| l@),
            crate::text::views(parts@) == first + all.subrange(from as int, i as int),
        decreases ls@.len() - i,
    {
        let ghost before = crate::text::views(parts@);
        parts.push(string_from_chars(ls[i].as_slice()));
        proof {
            assert(crate::text::views(parts@) =~= before.push(ls@[i as int]@));
            assert(all.subrange(from as int, i + 1) =~= all.subrange(from as int, i as int).push(all[i as int]));
        }
        i = i + 1;
    }
    proof {
        assert(all.subrange(from as int, i as int) =~= all.skip(from as int));
    }
    let joined = crate::text::join_strings(parts.as_slice(), "\n");
    let text = crate::text::trim_str(joined.as_str());
    if text.unicode_len() == 0 {
        None
    } else {
        Some(FollowUpCommand { capability: copy_str(capability), change_request: text })
    }
}

/// The follow-up a comment body asks for, if any: the first line that is,
/// once trimmed, `/ksforge implement` or `/ksforge fix`, optionally
/// followed by a space and the start of the change request, which goes on
/// over every following line.
pub fn parse_follow_up_command(body: &str) -> (r: Option<FollowUpCommand>)
    ensures
        match r {
            Some(c) => follow_up_from(lines(body@)) == Some((c.capability@, c.change_request@)),
            None => follow_up_from(lines(body@)) is None,
        },
{
    let v = chars_of(body);
    let ls = split_lines(v.as_slice());
    let ghost all = ls@.map_values(|l: Vec<char>| l@);
    proof {
        assert(all.skip(0) =~= all);
    }
    let mut i: usize = 0;
    while i < ls.len()
        invariant
            i <= ls@.len(),
            all == ls@.map_values(|l: Vec<char>| l@),
            all == lines(body@),
            follow_up_from(all) == follow_up_from(all.skip(i as int)),
        decreases ls@.len() - i,
    {
        let t = trimmed(ls[i].as_slice());
        proof {
            let rest = all.skip(i as int);
            assert(rest[0] == ls@[i as int]@);
            assert(rest.drop_first() =~= all.skip(i + 1));
        }
        match inline_of(&t, "/ksforge implement") {
            Some(inl) => {
                return make_follow_up("implement", inl, &ls, i + 1);
            },
            None => {},
        }
        match inline_of(&t, "/ksforge fix") {
            Some(inl) => {
                return make_follow_up("fix", inl, &ls, i + 1);
            },
            None => {},
        }
        i = i + 1;
    }
    proof {
        assert(all.skip(i as int) =~= Seq::<Seq<char>>::empty());
    }
    None
}

/// Whether a collaborator-permission reply allows a commenter to trigger
/// runs: only `admin` and `write` do.
pub open spec fn permission_allows(j: Json) -> bool {
    member_str(j, "permission"@) == Some("admin"@) || member_str(j, "permission"@) == Some("write"@)
}

/// Reads the GitHub API's collaborator-permission reply for a commenter.
/// A lookup that failed (`None`) means not authorized, never an error; a
/// reply that is not JSON is a JSON error.
pub fn authorization_from(reply: Option<&str>) -> (r: Result<bool, KsforgeError>)
    ensures
        match reply {
            None => r == Ok::<bool, KsforgeError>(false),
            Some(text) => match json_parse(text@) {
                Ok(j) => r == Ok::<bool, KsforgeError>(permission_allows(j)),
                Err(_) => r matches Err(KsforgeError::Json(_)),
            },
        },
{
    match reply {
        None => Ok(false),
        Some(text) => match parse_json_value(text) {
            Ok(j) => {
                let allowed = match j.get_str("permission") {
                    Some(p) => crate::text::str_eq(p.as_str(), "admin") || crate::text::str_eq(p.as_str(), "write"),
                    None => false,
                };
                Ok(allowed)
            },
            Err(e) => Err(KsforgeError::Json(e)),
        },
    }
}


proof fn lemma_trim_of_unpadded(s: Seq<char>)
    requires
        s.len() > 0,
        !is_whitespace(s[0]),
        !is_whitespace(s.last()),
    ensures
        trim(s) == s,
{
}

/// A `choose` line picks the word after the keyword: `/ksforge choose`,
/// then any run of white space, then one word without white space, picks
/// exactly that word; the keyword run straight into a word picks nothing.
pub proof fn lemma_choose_line_picks_its_option(ws: Seq<char>, option: Seq<char>)
    requires
        option.len() > 0,
        no_whitespace(option),
    ensures
        ws.len() > 0 && (forall|i: int| 0 <= i < ws.len() ==> is_whitespace(#[trigger] ws[i])) ==> choose_in_line(
            "/ksforge choose"@ + ws + option,
        ) == Some(option),
        choose_in_line("/ksforge choose"@ + option) is None,
{
    let p = "/ksforge choose"@;
    reveal_strlit("/ksforge choose");
    assert(!is_whitespace(option[0]) && !is_whitespace(option.last()));
    let bare = p + option;
    assert(bare.last() == option.last());
    lemma_trim_of_unpadded(bare);
    assert(bare[p.len() as int] == option[0]);
    if ws.len() > 0 && (forall|i: int| 0 <= i < ws.len() ==> is_whitespace(#[trigger] ws[i])) {
        let l = p + ws + option;
        assert(l.last() == option.last());
        lemma_trim_of_unpadded(l);
        assert(starts_with(l, p)) by {
            assert(l.take(p.len() as int) =~= p);
        }
        assert(l[p.len() as int] == ws[0]);
        let rest = l.skip(p.len() as int);
        assert(rest =~= ws + option);
        crate::text::lemma_trim_start_skip(rest, ws.len() as int);
        assert(rest.skip(ws.len() as int) =~= option);
        lemma_trim_of_unpadded(option);
        assert(trim_start(option) == option);
        assert(trim(rest) == option);
    }
}

} // verus!
