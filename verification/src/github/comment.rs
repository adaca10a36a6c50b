//! The status comment an execution keeps on a pull request: found again
//! by its marker and edited in place, so the pull request stays readable.
//! Running `gh` is the caller's part; what to run and how to read its
//! replies is here.
use vstd::prelude::*;

use crate::domain::error::{KsforgeError, Result};
use crate::domain::execution::ExecutionView;
use crate::github::report::{marker, report_body};
use crate::json::{json_parse_array, member, member_str, parse_json_array, Json};
use crate::text::{chars_of, contains, contains_seq, occurs_at, copy_str, decimal, decimal_string, parse_u64_digits, parsed_u64_digits, push_str};

verus! {

/// `value.as_u64()`: a number written as plain digits that fit.
pub open spec fn json_u64(v: Option<Json>) -> Option<nat> {
    match v {
        Some(Json::Number(t)) => parsed_u64_digits(t@),
        _ => None,
    }
}

/// The id of the first comment, from the `i`-th on, whose body holds
/// `marker` and whose id reads as a `u64`.
pub open spec fn marked_from(comments: Seq<Json>, marker: Seq<char>, i: int) -> Option<nat>
    decreases comments.len() - i,
{
    if i < 0 || i >= comments.len() {
        None
    } else if (member_str(comments[i], "body"@) matches Some(b) && contains_seq(b, marker)) && json_u64(
        member(comments[i], "id"@),
    ) is Some {
        json_u64(member(comments[i], "id"@))
    } else {
        marked_from(comments, marker, i + 1)
    }
}

/// The id of the comment carrying `marker`, from the reply of `gh api
/// repos/{owner}/{repo}/issues/<pr>/comments`: the first comment whose
/// `body` contains the marker and whose `id` is a `u64`; `None` when there
/// is none. A reply that is not a JSON array is a JSON error.
pub fn find_marker_comment(reply: &str, marker: &str) -> (r: Result<Option<u64>>)
    ensures
        match json_parse_array(reply@) {
            Some(items) => match r {
                Ok(Some(id)) => marked_from(items, marker@, 0) == Some(id as nat),
                Ok(None) => marked_from(items, marker@, 0) is None,
                Err(_) => false,
            },
            _ => r matches Err(KsforgeError::Json(_)),
        },
{
    let items = match parse_json_array(reply) {
        Ok(v) => v,
        Err(e) => return Err(KsforgeError::Json(e)),
    };
    let m = chars_of(marker);
    let mut i: usize = 0;
    while i < items.len()
        invariant
            i <= items@.len(),
            m@ == marker@,
            json_parse_array(reply@) == Some(items@),
            marked_from(items@, marker@, 0) == marked_from(items@, marker@, i as int),
        decreases items@.len() - i,
    {
        let c = &items[i];
        let body_hit = match c.get_str("body") {
            Some(b) => {
                let bv = chars_of(b.as_str());
                contains(bv.as_slice(), m.as_slice())
            },
            None => false,
        };
        assert(body_hit == (member_str(items@[i as int], "body"@) matches Some(b) && contains_seq(b, marker@)));
        if body_hit {
            let id = match c.get("id") {
                Some(Json::Number(t)) => parse_u64_digits(t.as_str()),
                _ => None,
            };
            assert(match id {
                Some(n) => json_u64(member(items@[i as int], "id"@)) == Some(n as nat),
                None => json_u64(member(items@[i as int], "id"@)) is None,
            });
            if id.is_some() {
                proof {
                    assert(marked_from(items@, marker@, i as int) == json_u64(member(items@[i as int], "id"@)));
                }
                return Ok(id);
            }
        }
        i = i + 1;
    }
    assert(marked_from(items@, marker@, i as int) is None);
    Ok(None)
}

/// `gh api` arguments listing the pull request's comments.
pub fn comments_query_args(pr: u64) -> (r: Vec<String>)
    ensures
        r.deep_view() == seq![
            "api"@,
            "repos/{owner}/{repo}/issues/"@ + decimal(pr as nat) + "/comments"@,
            "--paginate"@,
        ],
{
    let mut path = copy_str("repos/{owner}/{repo}/issues/");
    push_str(&mut path, decimal_string(pr).as_str());
    push_str(&mut path, "/comments");
    let mut r: Vec<String> = Vec::new();
    r.push(copy_str("api"));
    r.push(path);
    r.push(copy_str("--paginate"));
    assert(r.deep_view() =~= seq![
        "api"@,
        "repos/{owner}/{repo}/issues/"@ + decimal(pr as nat) + "/comments"@,
        "--paginate"@,
    ]);
    r
}

/// The `gh` arguments posting `body`: an edit of the comment already
/// carrying the marker, or a new comment on the pull request.
pub open spec fn report_args_spec(pr: u64, existing: Option<u64>, body: Seq<char>) -> Seq<Seq<char>> {
    match existing {
        Some(id) => seq![
            "api"@,
            "repos/{owner}/{repo}/issues/comments/"@ + decimal(id as nat),
            "-X"@,
            "PATCH"@,
            "-f"@,
            "body="@ + body,
        ],
        None => seq!["pr"@, "comment"@, decimal(pr as nat), "--body"@, body],
    }
}

pub fn report_args(pr: u64, existing: Option<u64>, body: &str) -> (r: Vec<String>)
    ensures
        r.deep_view() == report_args_spec(pr, existing, body@),
{
    let mut r: Vec<String> = Vec::new();
    match existing {
        Some(id) => {
            let mut path = copy_str("repos/{owner}/{repo}/issues/comments/");
            push_str(&mut path, decimal_string(id).as_str());
            let mut field = copy_str("body=");
            push_str(&mut field, body);
            r.push(copy_str("api"));
            r.push(path);
            r.push(copy_str("-X"));
            r.push(copy_str("PATCH"));
            r.push(copy_str("-f"));
            r.push(field);
        },
        None => {
            r.push(copy_str("pr"));
            r.push(copy_str("comment"));
            r.push(decimal_string(pr));
            r.push(copy_str("--body"));
            r.push(copy_str(body));
        },
    }
    assert(r.deep_view() =~= report_args_spec(pr, existing, body@));
    r
}

/// A posted report is found again: every report carries its execution's
/// marker, so once a comment holding a report of the execution (under a
/// readable id) is among the pull request's comments, the search finds a
/// comment to edit rather than posting a second one.
pub proof fn lemma_posted_report_is_found_again(e: ExecutionView, comments: Seq<Json>, j: int)
    requires
        0 <= j < comments.len(),
        member_str(comments[j], "body"@) == Some(report_body(e)),
        json_u64(member(comments[j], "id"@)) is Some,
    ensures
        contains_seq(report_body(e), marker(e.id)),
        marked_from(comments, marker(e.id), 0) is Some,
{
    let m = marker(e.id);
    assert(report_body(e).subrange(0, m.len() as int) =~= m);
    assert(occurs_at(report_body(e), m, 0));
    lemma_marked_from_reaches(comments, m, 0, j);
}

proof fn lemma_marked_from_reaches(comments: Seq<Json>, m: Seq<char>, i: int, j: int)
    requires
        0 <= i <= j < comments.len(),
        member_str(comments[j], "body"@) matches Some(b) && contains_seq(b, m),
        json_u64(member(comments[j], "id"@)) is Some,
    ensures
        marked_from(comments, m, i) is Some,
    decreases j - i,
{
    if i < j {
        lemma_marked_from_reaches(comments, m, i + 1, j);
    }
}

} // verus!
