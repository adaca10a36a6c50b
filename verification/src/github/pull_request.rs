//! What ksforge commits and opens as pull requests: the branch name, the
//! title and body, and the `git`/`gh` argument lists, once per repository
//! an execution touched. Running them is the caller's part.
use vstd::prelude::*;
use vstd::utf8::*;

use crate::domain::execution::{
    status_text, Execution, ExecutionResult, ExecutionStatus, ExecutionView, ResultView,
};
use crate::text::{chars_of, copy_str, ends_with, first_line, first_line_str, push_str, starts_with, trim, trim_str};

verus! {

/// One repository's branch and pull request.
pub struct PullRequestOutcome {
    /// The repository root.
    pub repo: String,
    pub branch: String,
    pub url: Option<String>,
}

/// One entry per repository touched, plus the changed files no repository
/// owns. Empty means nothing to do.
pub struct PullRequestBatch {
    pub outcomes: Vec<PullRequestOutcome>,
    pub unversioned: Vec<String>,
}

impl Default for PullRequestBatch {
    fn default() -> (r: PullRequestBatch)
        ensures
            r.outcomes@.len() == 0,
            r.unversioned@.len() == 0,
    {
        PullRequestBatch { outcomes: Vec::new(), unversioned: Vec::new() }
    }
}

/// One repository's commit, labelled with the commit title (a push to the
/// current branch) or the new branch's name (a local commit).
pub struct RepoCommitOutcome {
    pub repo: String,
    pub label: String,
}

pub struct RepoCommitBatch {
    pub outcomes: Vec<RepoCommitOutcome>,
    pub unversioned: Vec<String>,
}

impl Default for RepoCommitBatch {
    fn default() -> (r: RepoCommitBatch)
        ensures
            r.outcomes@.len() == 0,
            r.unversioned@.len() == 0,
    {
        RepoCommitBatch { outcomes: Vec::new(), unversioned: Vec::new() }
    }
}

/// The first line of `s`, cut to `max` characters with `...`.
pub open spec fn truncated_line(s: Seq<char>, max: nat) -> Seq<char> {
    let l = first_line(s);
    if l.len() <= max {
        l
    } else {
        l.take(max as int) + "..."@
    }
}

pub fn truncate(s: &str, max: usize) -> (r: String)
    ensures
        r@ == truncated_line(s@, max as nat),
{
    let l = first_line_str(s);
    let v = chars_of(l.as_str());
    if v.len() <= max {
        return l;
    }
    let cut = crate::text::slice_range(v.as_slice(), 0, max);
    let mut r = crate::text::string_from_chars(cut.as_slice());
    push_str(&mut r, "...");
    proof {
        assert(cut@ =~= l@.take(max as int));
    }
    r
}

/// The agent's own headline when it gave a non-blank one, else the first
/// line of the summary cut to 60 characters; prefixed with the capability.
pub open spec fn title_of(capability: Seq<char>, r: ResultView) -> Seq<char> {
    let headline = match r.title {
        Some(t) => if trim(t).len() > 0 {
            trim(t)
        } else {
            truncated_line(r.summary, 60)
        },
        None => truncated_line(r.summary, 60),
    };
    "["@ + capability + "] "@ + headline
}

pub fn pull_request_title(capability: &str, result: &ExecutionResult) -> (r: String)
    ensures
        r@ == title_of(capability@, result@),
{
    let headline = match &result.title {
        Some(t) => {
            let tt = trim_str(t.as_str());
            if tt.unicode_len() > 0 {
                tt
            } else {
                truncate(result.summary.as_str(), 60)
            }
        },
        None => truncate(result.summary.as_str(), 60),
    };
    let mut s = copy_str("[");
    push_str(&mut s, capability);
    push_str(&mut s, "] ");
    push_str(&mut s, headline.as_str());
    s
}

pub open spec fn validation_word(e: ExecutionView) -> Seq<char> {
    match e.result {
        Some(r) => if r.validation.commands.len() == 0 {
            "not configured"@
        } else if r.validation.passed {
            "passed"@
        } else {
            "failed"@
        },
        None => "not configured"@,
    }
}

/// The change request, then one compact provenance line.
pub open spec fn body_of(e: ExecutionView) -> Seq<char> {
    "## Change Request\n\n"@ + trim(e.change_request) + "\n\n---\n`"@ + e.capability + "` · `"@ + e.id
        + "` · validation: "@ + validation_word(e)
}

pub fn pr_body(execution: &Execution) -> (r: String)
    ensures
        r@ == body_of(execution@),
{
    let word = match &execution.result {
        Some(r) => {
            if r.validation.commands.len() == 0 {
                "not configured"
            } else if r.validation.passed {
                "passed"
            } else {
                "failed"
            }
        },
        None => "not configured",
    };
    let mut s = copy_str("## Change Request\n\n");
    let t = trim_str(execution.change_request.text.as_str());
    push_str(&mut s, t.as_str());
    push_str(&mut s, "\n\n---\n`");
    push_str(&mut s, execution.capability.as_str());
    push_str(&mut s, "` · `");
    push_str(&mut s, execution.id.0.as_str());
    push_str(&mut s, "` · validation: ");
    push_str(&mut s, word);
    s
}

/// The id without its `ksf_` prefix, cut to its first 12 bytes; the whole
/// id when that cut is not possible.
pub open spec fn short_id_of(id: Seq<char>) -> Seq<char> {
    let s = if starts_with(id, "ksf_"@) { id.skip(4) } else { id };
    let b = encode_utf8(s);
    if b.len() >= 12 && is_char_boundary(b, 12) {
        decode_utf8(b.take(12))
    } else {
        id
    }
}

pub fn short_id(id: &str) -> (r: String)
    ensures
        r@ == short_id_of(id@),
{
    let v = chars_of(id);
    let stripped = if crate::text::has_prefix_str(v.as_slice(), "ksf_") {
        proof {
            reveal_strlit("ksf_");
        }
        let rest = crate::text::slice_range(v.as_slice(), 4, v.len());
        proof {
            assert(rest@ =~= id@.skip(4));
        }
        crate::text::string_from_chars(rest.as_slice())
    } else {
        copy_str(id)
    };
    let n = stripped.as_str().as_bytes().len();
    if n >= 12 && stripped.as_str().is_char_boundary(12) {
        let (a, _b) = stripped.as_str().split_at(12);
        proof {
            encode_utf8_decode_utf8(a@);
            assert(encode_utf8(stripped@).take(12) =~= encode_utf8(stripped@).subrange(0, 12));
        }
        copy_str(a)
    } else {
        copy_str(id)
    }
}

/// The branch an execution's changes are committed on.
pub open spec fn branch_of(id: Seq<char>) -> Seq<char> {
    "ksforge/"@ + short_id_of(id)
}

pub fn branch_name(id: &str) -> (r: String)
    ensures
        r@ == branch_of(id@),
{
    let mut b = copy_str("ksforge/");
    let s = short_id(id);
    push_str(&mut b, s.as_str());
    b
}

/// What committing an execution's result takes, when there is anything to
/// commit: the title, the body, the branch, and the changed files.
pub struct CommitPlan {
    pub title: String,
    pub body: String,
    pub branch: String,
    pub changed_files: Vec<String>,
}

/// There is something to commit only for a completed execution with a
/// result that changed files (a review or an explanation changes none).
pub open spec fn has_commit(e: ExecutionView) -> bool {
    e.status == ExecutionStatus::Completed && e.result is Some && e.result->0.changed_files.len() > 0
}

pub fn commit_plan(execution: &Execution) -> (r: Option<CommitPlan>)
    ensures
        r is Some <==> has_commit(execution@),
        r matches Some(p) ==> p.title@ == title_of(execution@.capability, execution@.result->0) && p.body@
            == body_of(execution@) && p.branch@ == branch_of(execution@.id) && p.changed_files.deep_view()
            == execution@.result->0.changed_files,
{
    if execution.status != ExecutionStatus::Completed {
        return None;
    }
    match &execution.result {
        None => None,
        Some(result) => {
            if result.changed_files.len() == 0 {
                return None;
            }
            Some(CommitPlan {
                title: pull_request_title(execution.capability.as_str(), result),
                body: pr_body(execution),
                branch: branch_name(execution.id.0.as_str()),
                changed_files: crate::domain::execution::clone_strings(&result.changed_files),
            })
        },
    }
}

/// `git add -- <files>`.
pub fn add_args(files: &Vec<String>) -> (r: Vec<String>)
    ensures
        r.deep_view() == seq!["add"@, "--"@] + files.deep_view(),
{
    let mut args: Vec<String> = Vec::new();
    args.push(copy_str("add"));
    args.push(copy_str("--"));
    let ghost head = args.deep_view();
    let mut i: usize = 0;
    while i < files.len()
        invariant
            i <= files@.len(),
            args.deep_view() == head + files.deep_view().take(i as int),
            head == seq!["add"@, "--"@],
        decreases files@.len() - i,
    {
        let ghost before = args.deep_view();
        args.push(files[i].clone());
        proof {
            assert(args.deep_view() =~= before.push(files@[i as int]@));
            assert(files.deep_view().take(i + 1) =~= files.deep_view().take(i as int).push(files@[i as int]@));
        }
        i = i + 1;
    }
    proof {
        assert(files.deep_view().take(i as int) =~= files.deep_view());
    }
    args
}

/// `git commit -m <title>`, with `-m <body>` when there is a body.
pub fn commit_args(title: &str, body: Option<&str>) -> (r: Vec<String>)
    ensures
        r.deep_view() == seq!["commit"@, "-m"@, title@] + match body {
            Some(b) => seq!["-m"@, b@],
            None => seq![],
        },
{
    let mut args: Vec<String> = Vec::new();
    args.push(copy_str("commit"));
    args.push(copy_str("-m"));
    args.push(copy_str(title));
    match body {
        Some(b) => {
            args.push(copy_str("-m"));
            args.push(copy_str(b));
        },
        None => {},
    }
    proof {
        assert(args.deep_view() =~= seq!["commit"@, "-m"@, title@] + match body {
            Some(b) => seq!["-m"@, b@],
            None => seq![],
        });
    }
    args
}

/// `gh pr create` for `branch` against `base`.
pub fn pr_create_args(title: &str, body: &str, base: &str, branch: &str) -> (r: Vec<String>)
    ensures
        r.deep_view() == seq![
            "pr"@, "create"@, "--title"@, title@, "--body"@, body@, "--base"@, base@, "--head"@, branch@,
        ],
{
    let mut args: Vec<String> = Vec::new();
    args.push(copy_str("pr"));
    args.push(copy_str("create"));
    args.push(copy_str("--title"));
    args.push(copy_str(title));
    args.push(copy_str("--body"));
    args.push(copy_str(body));
    args.push(copy_str("--base"));
    args.push(copy_str(base));
    args.push(copy_str("--head"));
    args.push(copy_str(branch));
    proof {
        assert(args.deep_view() =~= seq![
            "pr"@, "create"@, "--title"@, title@, "--body"@, body@, "--base"@, base@, "--head"@, branch@,
        ]);
    }
    args
}

/// The pull request URL `gh pr create` printed: the last line of its
/// trimmed output.
pub open spec fn url_of(output: Seq<char>) -> Option<Seq<char>> {
    let ls = crate::text::lines(trim(output));
    if ls.len() > 0 {
        Some(ls.last())
    } else {
        None
    }
}

pub fn pr_url(output: &str) -> (r: Option<String>)
    ensures
        crate::json::opt_view(r) == url_of(output@),
{
    let t = trim_str(output);
    let v = chars_of(t.as_str());
    let ls = crate::text::split_lines(v.as_slice());
    proof {
        assert(ls@.map_values(|l: Vec<char>| l@).len() == ls@.len());
    }
    if ls.len() == 0 {
        None
    } else {
        proof {
            assert(ls@.map_values(|l: Vec<char>| l@).last() == ls@[ls@.len() - 1]@);
        }
        Some(crate::text::string_from_chars(ls[ls.len() - 1].as_slice()))
    }
}

/// The message a confirmed local merge is committed with.
pub fn merge_message(branch: &str, base_branch: &str) -> (r: String)
    ensures
        r@ == "Merge branch '"@ + branch@ + "' into "@ + base_branch@,
{
    let mut m = copy_str("Merge branch '");
    push_str(&mut m, branch);
    push_str(&mut m, "' into ");
    push_str(&mut m, base_branch);
    m
}

/// The identity a commit falls back to on a machine with none configured
/// (set only where none is, and only in the repository's own config).
pub const FALLBACK_EMAIL: &'static str = "41898282+github-actions[bot]@users.noreply.github.com";

pub const FALLBACK_NAME: &'static str = "github-actions[bot]";


/// The pull request body ends by naming the capability and the execution
/// and saying how validation went: `passed` when commands ran and
/// validation passed, `failed` when commands ran and it did not, `not
/// configured` when no command ran.
pub proof fn lemma_pr_body_states_validation(e: ExecutionView)
    ensures
        ends_with(
            body_of(e),
            "`"@ + e.capability + "` · `"@ + e.id + "` · validation: "@ + match e.result {
                Some(r) => if r.validation.commands.len() > 0 {
                    if r.validation.passed {
                        "passed"@
                    } else {
                        "failed"@
                    }
                } else {
                    "not configured"@
                },
                None => "not configured"@,
            },
        ),
{
    let head = "## Change Request\n\n"@ + trim(e.change_request) + "\n\n---\n"@;
    let tail = "`"@ + e.capability + "` · `"@ + e.id + "` · validation: "@ + validation_word(e);
    let b = body_of(e);
    reveal_strlit("\n\n---\n`");
    reveal_strlit("\n\n---\n");
    reveal_strlit("`");
    assert(b =~= head + tail);
    assert(b.len() - tail.len() == head.len());
    assert(b.skip(head.len() as int) =~= tail);
}

} // verus!
