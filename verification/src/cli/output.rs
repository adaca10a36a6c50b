//! What ksforge shows: the human transcript of an execution, the text form
//! of a coordination analysis, the workspace overview, and the notices
//! after committing. Every renderer returns text; printing it (data on
//! stdout, notices on stderr) is the caller's part.
use vstd::prelude::*;

use crate::agent::coordination::{classification_text, CoordinationDecision};
use crate::color::{paint, painted, Color};
use crate::domain::capability::{capability_id, default_capabilities, CapabilityRegistry};
use crate::domain::execution::{
    earlier, status_text, Execution, ExecutionStatus, ExecutionView, Timestamp,
};
use crate::github::pull_request::{PullRequestBatch, RepoCommitBatch};
use crate::path::components;
use crate::text::{copy_str, decimal, decimal_string, first_line, first_line_str, join, push_str};

verus! {

/// One line per item: `prefix`, the item, a newline.
pub open spec fn prefixed_lines(items: Seq<Seq<char>>, prefix: Seq<char>) -> Seq<char>
    decreases items.len(),
{
    if items.len() == 0 {
        seq![]
    } else {
        prefixed_lines(items.drop_last(), prefix) + prefix + items.last() + "\n"@
    }
}

fn push_prefixed_lines(s: &mut String, items: &Vec<String>, prefix: &str)
    ensures
        final(s)@ == old(s)@ + prefixed_lines(items.deep_view(), prefix@),
{
    let ghost base = s@;
    let ghost iv = items.deep_view();
    let mut i: usize = 0;
    while i < items.len()
        invariant
            i <= items@.len(),
            iv == items.deep_view(),
            s@ == base + prefixed_lines(iv.take(i as int), prefix@),
        decreases items@.len() - i,
    {
        push_str(s, prefix);
        push_str(s, items[i].as_str());
        push_str(s, "\n");
        proof {
            assert(iv.take(i + 1).drop_last() =~= iv.take(i as int));
            assert(iv.take(i + 1).last() == items@[i as int]@);
        }
        i = i + 1;
    }
    proof {
        assert(iv.take(i as int) =~= iv);
    }
}

pub open spec fn rule() -> Seq<char> {
    Seq::new(36, |i: int| '─')
}

fn push_rule(s: &mut String)
    ensures
        final(s)@ == old(s)@ + rule(),
{
    let ghost base = s@;
    let mut i: usize = 0;
    while i < 36
        invariant
            i <= 36,
            s@ == base + Seq::new(i as nat, |k: int| '─'),
        decreases 36 - i,
    {
        crate::text::push_char(s, '─');
        proof {
            assert(s@ =~= base + Seq::new((i + 1) as nat, |k: int| '─'));
        }
        i = i + 1;
    }
}

// ---------------------------------------------------------------------
// An execution, for a human
// ---------------------------------------------------------------------

pub open spec fn option_rows(options: Seq<crate::domain::execution::OptionView>) -> Seq<char>
    decreases options.len(),
{
    if options.len() == 0 {
        seq![]
    } else {
        option_rows(options.drop_last()) + "  "@ + decimal((options.len() - 1) as nat) + ") "@
            + options.last().id + " - "@ + options.last().label + "\n"@
    }
}

pub open spec fn recommended_rows(q: crate::domain::execution::GateView) -> Seq<char> {
    match q.recommended_option {
        Some(rec) => "\nRecommended:\n  "@ + rec + "\n"@ + (if q.context.len() > 0 {
            "  "@ + q.context + "\n"@
        } else {
            seq![]
        }),
        None => seq![],
    }
}

pub open spec fn waiting_gate(id: Seq<char>, q: crate::domain::execution::GateView) -> Seq<char> {
    "\nStatus:\n  Waiting for human input\n\nQuestion:\n  "@ + q.question + "\n\nOptions:\n"@ + option_rows(q.options)
        + recommended_rows(q) + "\nResume:\n  ksforge resume "@ + id + " --decision <number-or-option-id>\n"@
}

pub open spec fn waiting_part(e: ExecutionView) -> Seq<char> {
    match e.pending_question {
        None => seq![],
        Some(q) => waiting_gate(e.id, q),
    }
}

pub open spec fn check_rows(cs: Seq<crate::domain::execution::CommandView>) -> Seq<char>
    decreases cs.len(),
{
    if cs.len() == 0 {
        seq![]
    } else {
        check_rows(cs.drop_last()) + "  "@ + (if cs.last().passed { "✓"@ } else { "✗"@ }) + " "@
            + cs.last().command + "\n"@
    }
}

pub open spec fn changed_part(r: crate::domain::execution::ResultView) -> Seq<char> {
    if r.changed_files.len() == 0 {
        "Changed: none\n"@
    } else {
        "Changed:\n"@ + prefixed_lines(r.changed_files, "  "@)
    }
}

pub open spec fn checks_part(r: crate::domain::execution::ResultView) -> Seq<char> {
    if r.validation.commands.len() > 0 {
        "\nValidation:\n"@ + check_rows(r.validation.commands)
    } else {
        seq![]
    }
}

pub open spec fn agent_part(r: crate::domain::execution::ResultView) -> Seq<char> {
    match r.validation.agent_review {
        Some(rv) => "\nValidation (agent): "@ + rv.summary + "\n"@ + prefixed_lines(rv.completed, "  ✓ "@) + (
        if rv.open_items.len() > 0 {
            "  Further findings:\n"@ + prefixed_lines(rv.open_items, "    - "@)
        } else {
            seq![]
        }) + (match rv.recommendation {
            Some(rec) => "  Recommendation: "@ + rec + "\n"@,
            None => seq![],
        }),
        None => seq![],
    }
}

pub open spec fn open_rows(r: crate::domain::execution::ResultView) -> Seq<char> {
    if r.open_items.len() > 0 {
        "\nOpen:\n"@ + prefixed_lines(r.open_items, "  "@)
    } else {
        seq![]
    }
}

pub open spec fn recommendation_rows(r: crate::domain::execution::ResultView) -> Seq<char> {
    match r.recommendation {
        Some(rec) => "\nRecommendation:\n  "@ + rec + "\n"@,
        None => seq![],
    }
}

pub open spec fn result_rows(r: crate::domain::execution::ResultView) -> Seq<char> {
    "\n"@ + changed_part(r) + checks_part(r) + agent_part(r) + open_rows(r) + recommendation_rows(r)
        + "\nResult:\n  "@ + r.summary + "\n"@
}

pub open spec fn completed_part(e: ExecutionView) -> Seq<char> {
    match e.result {
        None => seq![],
        Some(r) => result_rows(r),
    }
}

pub open spec fn status_part(e: ExecutionView) -> Seq<char> {
    match e.status {
        ExecutionStatus::WaitingForHuman => waiting_part(e),
        ExecutionStatus::Completed => completed_part(e),
        ExecutionStatus::Failed => "\nResult:\n  Failed: "@ + (match e.result {
            Some(r) => r.summary,
            None => "unknown error"@,
        }) + "\n"@,
        ExecutionStatus::Running | ExecutionStatus::Cancelled => "\nStatus: "@ + status_text(e.status) + "\n"@,
    }
}

/// The short human transcript of an execution: the capability, the first
/// line of the change request, the id, then what its status calls for.
pub open spec fn transcript(e: ExecutionView) -> Seq<char> {
    "\nksforge\n"@ + rule() + "\n\nCapability:\n  "@ + e.capability + "\n\nChange request:\n  "@
        + first_line(e.change_request) + "\n\nExecution: "@ + e.id + "\n"@ + status_part(e) + "\n"@
}

fn push_option_rows(s: &mut String, options: &Vec<crate::domain::execution::DecisionOption>)
    ensures
        final(s)@ == old(s)@ + option_rows(options.deep_view()),
{
    let ghost a = s@;
    let ghost ov = options.deep_view();
    let mut i: usize = 0;
    while i < options.len()
        invariant
            i <= options@.len(),
            ov == options.deep_view(),
            s@ == a + option_rows(ov.take(i as int)),
        decreases options@.len() - i,
    {
        push_str(s, "  ");
        let n = decimal_string(i as u64);
        push_str(s, n.as_str());
        push_str(s, ") ");
        push_str(s, options[i].id.as_str());
        push_str(s, " - ");
        push_str(s, options[i].label.as_str());
        push_str(s, "\n");
        proof {
            assert(ov.take(i + 1).drop_last() =~= ov.take(i as int));
            assert(ov.take(i + 1).last() == options@[i as int]@);
            assert(ov.take(i + 1).len() - 1 == i);
        }
        i = i + 1;
    }
    proof {
        assert(ov.take(i as int) =~= ov);
    }
}

fn push_recommended_rows(s: &mut String, q: &crate::domain::execution::HumanDecisionRequest)
    ensures
        final(s)@ == old(s)@ + recommended_rows(q@),
{
    let ghost b = s@;
    match &q.recommended_option {
        Some(rec) => {
            push_str(s, "\nRecommended:\n  ");
            push_str(s, rec.as_str());
            push_str(s, "\n");
            let ghost c = s@;
            if q.context.unicode_len() > 0 {
                push_str(s, "  ");
                push_str(s, q.context.as_str());
                push_str(s, "\n");
            }
            proof {
                if q.context@.len() == 0 {
                    assert(s@ =~= c + Seq::<char>::empty());
                }
            }
        },
        None => {},
    }
    proof {
        assert(s@ =~= b + recommended_rows(q@));
    }
}

fn push_waiting_gate(s: &mut String, id: &str, q: &crate::domain::execution::HumanDecisionRequest)
    ensures
        final(s)@ == old(s)@ + waiting_gate(id@, q@),
{
    let ghost base = s@;
    push_str(s, "\nStatus:\n  Waiting for human input\n\nQuestion:\n  ");
    push_str(s, q.question.as_str());
    push_str(s, "\n\nOptions:\n");
    push_option_rows(s, &q.options);
    push_recommended_rows(s, q);
    push_str(s, "\nResume:\n  ksforge resume ");
    push_str(s, id);
    push_str(s, " --decision <number-or-option-id>\n");
    proof {
        assert(s@ =~= base + waiting_gate(id@, q@));
    }
}

fn push_check_rows(s: &mut String, cs: &Vec<crate::domain::execution::ValidationCommandOutcome>)
    ensures
        final(s)@ == old(s)@ + check_rows(cs.deep_view()),
{
    let ghost base = s@;
    let ghost cv = cs.deep_view();
    let mut i: usize = 0;
    while i < cs.len()
        invariant
            i <= cs@.len(),
            cv == cs.deep_view(),
            s@ == base + check_rows(cv.take(i as int)),
        decreases cs@.len() - i,
    {
        push_str(s, "  ");
        if cs[i].passed {
            push_str(s, "✓");
        } else {
            push_str(s, "✗");
        }
        push_str(s, " ");
        push_str(s, cs[i].command.as_str());
        push_str(s, "\n");
        proof {
            assert(cv.take(i + 1).drop_last() =~= cv.take(i as int));
            assert(cv.take(i + 1).last() == cs@[i as int]@);
        }
        i = i + 1;
    }
    proof {
        assert(cv.take(i as int) =~= cv);
    }
}

fn push_agent_part(s: &mut String, r: &crate::domain::execution::ExecutionResult)
    ensures
        final(s)@ == old(s)@ + agent_part(r@),
{
    let ghost base = s@;
    match &r.validation.agent_review {
        None => {
            proof {
                assert(s@ =~= base + agent_part(r@));
            }
        },
        Some(rv) => {
            push_str(s, "\nValidation (agent): ");
            push_str(s, rv.summary.as_str());
            push_str(s, "\n");
            push_prefixed_lines(s, &rv.completed, "  ✓ ");
            let ghost a = s@;
            if rv.open_items.len() > 0 {
                push_str(s, "  Further findings:\n");
                push_prefixed_lines(s, &rv.open_items, "    - ");
            }
            let ghost b = s@;
            match &rv.recommendation {
                Some(rec) => {
                    push_str(s, "  Recommendation: ");
                    push_str(s, rec.as_str());
                    push_str(s, "\n");
                },
                None => {},
            }
            proof {
                if rv.open_items@.len() == 0 {
                    assert(b =~= a + Seq::<char>::empty());
                }
                if rv.recommendation is None {
                    assert(s@ =~= b + Seq::<char>::empty());
                }
                assert(s@ =~= base + agent_part(r@));
            }
        },
    }
}

fn push_changed_part(s: &mut String, r: &crate::domain::execution::ExecutionResult)
    ensures
        final(s)@ == old(s)@ + changed_part(r@),
{
    if r.changed_files.len() == 0 {
        push_str(s, "Changed: none\n");
    } else {
        push_str(s, "Changed:\n");
        push_prefixed_lines(s, &r.changed_files, "  ");
    }
}

fn push_checks_part(s: &mut String, r: &crate::domain::execution::ExecutionResult)
    ensures
        final(s)@ == old(s)@ + checks_part(r@),
{
    let ghost a = s@;
    if r.validation.commands.len() > 0 {
        push_str(s, "\nValidation:\n");
        push_check_rows(s, &r.validation.commands);
    }
    proof {
        assert(s@ =~= a + checks_part(r@));
    }
}

fn push_tail_rows(s: &mut String, r: &crate::domain::execution::ExecutionResult)
    ensures
        final(s)@ == old(s)@ + open_rows(r@) + recommendation_rows(r@),
{
    let ghost c = s@;
    if r.open_items.len() > 0 {
        push_str(s, "\nOpen:\n");
        push_prefixed_lines(s, &r.open_items, "  ");
    }
    let ghost d = s@;
    match &r.recommendation {
        Some(rec) => {
            push_str(s, "\nRecommendation:\n  ");
            push_str(s, rec.as_str());
            push_str(s, "\n");
        },
        None => {},
    }
    proof {
        if r@.open_items.len() == 0 {
            assert(d =~= c + Seq::<char>::empty());
        }
        if r@.recommendation is None {
            assert(s@ =~= d + Seq::<char>::empty());
        }
        assert(s@ =~= c + open_rows(r@) + recommendation_rows(r@));
    }
}

fn push_result_rows(s: &mut String, r: &crate::domain::execution::ExecutionResult)
    ensures
        final(s)@ == old(s)@ + result_rows(r@),
{
    let ghost base = s@;
    push_str(s, "\n");
    push_changed_part(s, r);
    push_checks_part(s, r);
    push_agent_part(s, r);
    push_tail_rows(s, r);
    push_str(s, "\nResult:\n  ");
    push_str(s, r.summary.as_str());
    push_str(s, "\n");
    proof {
        assert(s@ =~= base + result_rows(r@));
    }
}

/// The transcript of `execution`, as `--format text` prints it.
pub fn render_human(execution: &Execution) -> (r: String)
    ensures
        r@ == transcript(execution@),
{
    let mut s = copy_str("\nksforge\n");
    push_rule(&mut s);
    push_str(&mut s, "\n\nCapability:\n  ");
    push_str(&mut s, execution.capability.as_str());
    push_str(&mut s, "\n\nChange request:\n  ");
    let l = first_line_str(execution.change_request.text.as_str());
    push_str(&mut s, l.as_str());
    push_str(&mut s, "\n\nExecution: ");
    push_str(&mut s, execution.id.0.as_str());
    push_str(&mut s, "\n");
    let ghost head = s@;
    match execution.status {
        ExecutionStatus::WaitingForHuman => match &execution.pending_question {
            Some(q) => push_waiting_gate(&mut s, execution.id.0.as_str(), q),
            None => {},
        },
        ExecutionStatus::Completed => match &execution.result {
            Some(r) => push_result_rows(&mut s, r),
            None => {},
        },
        ExecutionStatus::Failed => {
            push_str(&mut s, "\nResult:\n  Failed: ");
            match &execution.result {
                Some(r) => push_str(&mut s, r.summary.as_str()),
                None => push_str(&mut s, "unknown error"),
            }
            push_str(&mut s, "\n");
        },
        ExecutionStatus::Running | ExecutionStatus::Cancelled => {
            push_str(&mut s, "\nStatus: ");
            push_str(&mut s, execution.status.as_str());
            push_str(&mut s, "\n");
        },
    }
    push_str(&mut s, "\n");
    proof {
        assert(s@ =~= transcript(execution@));
    }
    s
}

// ---------------------------------------------------------------------
// A coordination analysis, for a human
// ---------------------------------------------------------------------

pub open spec fn labelled_list(label: Seq<char>, items: Seq<Seq<char>>) -> Seq<char> {
    if items.len() == 0 {
        seq![]
    } else {
        "\n"@ + label + ":\n"@ + prefixed_lines(items, "  - "@)
    }
}

/// The text form of a coordination analysis; each list only when it has
/// entries.
pub open spec fn coordination_text(d: CoordinationDecision) -> Seq<char> {
    "\nClassification: "@ + classification_debug(d.classification) + "\nProceed: "@ + (if d.proceed {
        "YES"@
    } else {
        "NO"@
    }) + "\n"@ + labelled_list("Affected scope"@, d.affected_scope.deep_view()) + labelled_list(
        "Related executions"@,
        d.related_executions.deep_view(),
    ) + labelled_list("Dependencies"@, d.dependencies.deep_view()) + labelled_list(
        "Conflicts"@,
        d.conflicts.deep_view(),
    ) + labelled_list("Recommendations"@, d.recommendations.deep_view()) + "\n"@
}

/// The class as its variant name (`Low`, `Medium`, `High`, `Blocked`),
/// the way `{:?}` prints it.
pub open spec fn classification_debug(c: crate::agent::coordination::Classification) -> Seq<char> {
    match c {
        crate::agent::coordination::Classification::Low => "Low"@,
        crate::agent::coordination::Classification::Medium => "Medium"@,
        crate::agent::coordination::Classification::High => "High"@,
        crate::agent::coordination::Classification::Blocked => "Blocked"@,
    }
}

fn push_labelled_list(s: &mut String, label: &str, items: &Vec<String>)
    ensures
        final(s)@ == old(s)@ + labelled_list(label@, items.deep_view()),
{
    let ghost base = s@;
    if items.len() == 0 {
        proof {
            assert(s@ =~= base + labelled_list(label@, items.deep_view()));
        }
        return;
    }
    push_str(s, "\n");
    push_str(s, label);
    push_str(s, ":\n");
    push_prefixed_lines(s, items, "  - ");
    proof {
        assert(s@ =~= base + labelled_list(label@, items.deep_view()));
    }
}

pub fn render_coordination(d: &CoordinationDecision) -> (r: String)
    ensures
        r@ == coordination_text(*d),
{
    let mut s = copy_str("\nClassification: ");
    let c = match d.classification {
        crate::agent::coordination::Classification::Low => "Low",
        crate::agent::coordination::Classification::Medium => "Medium",
        crate::agent::coordination::Classification::High => "High",
        crate::agent::coordination::Classification::Blocked => "Blocked",
    };
    push_str(&mut s, c);
    push_str(&mut s, "\nProceed: ");
    push_str(&mut s, if d.proceed { "YES" } else { "NO" });
    push_str(&mut s, "\n");
    push_labelled_list(&mut s, "Affected scope", &d.affected_scope);
    push_labelled_list(&mut s, "Related executions", &d.related_executions);
    push_labelled_list(&mut s, "Dependencies", &d.dependencies);
    push_labelled_list(&mut s, "Conflicts", &d.conflicts);
    push_labelled_list(&mut s, "Recommendations", &d.recommendations);
    push_str(&mut s, "\n");
    proof {
        assert(s@ =~= coordination_text(*d));
    }
    s
}

// ---------------------------------------------------------------------
// Commit notices
// ---------------------------------------------------------------------

/// `path` relative to `root` when `root`'s components lead it, joined by
/// `/`; `path` itself otherwise.
pub open spec fn relative_to(path: Seq<char>, root: Seq<char>) -> Seq<char> {
    let p = components(path);
    let r = components(root);
    if r.len() <= p.len() && p.take(r.len() as int) == r {
        join(p.skip(r.len() as int), "/"@)
    } else {
        path
    }
}

pub fn relative(path: &str, root: &str) -> (r: String)
    ensures
        r@ == relative_to(path@, root@),
{
    let p = crate::path::components_of(path);
    let q = crate::path::components_of(root);
    let ghost pv = p@.map_values(|c: Vec<char>| c@);
    let ghost qv = q@.map_values(|c: Vec<char>| c@);
    if q.len() > p.len() {
        return copy_str(path);
    }
    let mut i: usize = 0;
    while i < q.len()
        invariant
            i <= q@.len(),
            q@.len() <= p@.len(),
            pv == components(path@),
            qv == components(root@),
            pv == p@.map_values(|c: Vec<char>| c@),
            qv == q@.map_values(|c: Vec<char>| c@),
            forall|k: int| 0 <= k < i ==> pv[k] == qv[k],
        decreases q@.len() - i,
    {
        if !crate::text::chars_eq(p[i].as_slice(), q[i].as_slice()) {
            proof {
                assert(pv[i as int] == p@[i as int]@);
                assert(qv[i as int] == q@[i as int]@);
                assert(pv.take(qv.len() as int)[i as int] != qv[i as int]);
            }
            return copy_str(path);
        }
        i = i + 1;
    }
    proof {
        assert(pv.take(qv.len() as int) =~= qv);
    }
    let mut rest: Vec<String> = Vec::new();
    let mut j: usize = q.len();
    while j < p.len()
        invariant
            q@.len() <= j <= p@.len(),
            pv == p@.map_values(|c: Vec<char>| c@),
            crate::text::views(rest@) == pv.subrange(q@.len() as int, j as int),
        decreases p@.len() - j,
    {
        let ghost before = crate::text::views(rest@);
        rest.push(crate::text::string_from_chars(p[j].as_slice()));
        proof {
            assert(crate::text::views(rest@) =~= before.push(pv[j as int]));
            assert(pv.subrange(q@.len() as int, j + 1) =~= pv.subrange(q@.len() as int, j as int).push(pv[j as int]));
        }
        j = j + 1;
    }
    proof {
        assert(pv.subrange(q@.len() as int, j as int) =~= pv.skip(qv.len() as int));
    }
    crate::text::join_strings(rest.as_slice(), "/")
}

/// A notice line, colored like every diagnostic on stderr.
pub open spec fn notice(text: Seq<char>, on: bool) -> Seq<char> {
    painted(text, Color::Cyan, false, on)
}

pub fn eprint_notice_text(text: &str, on: bool) -> (r: String)
    ensures
        r@ == notice(text@, on),
{
    paint(text, Color::Cyan, false, on)
}

pub open spec fn unversioned_notice(files: Seq<Seq<char>>, root: Seq<char>, on: bool) -> Seq<Seq<char>> {
    if files.len() == 0 {
        seq![]
    } else {
        seq![notice("Changed but not committed — no git repo found under "@ + root + ": "@ + join(files, ", "@), on)]
    }
}

fn push_unversioned(lines: &mut Vec<String>, files: &Vec<String>, root: &str, on: bool)
    ensures
        final(lines).deep_view() == old(lines).deep_view() + unversioned_notice(files.deep_view(), root@, on),
{
    let ghost before = lines.deep_view();
    if files.len() == 0 {
        proof {
            assert(lines.deep_view() =~= before + unversioned_notice(files.deep_view(), root@, on));
        }
        return;
    }
    let mut t = copy_str("Changed but not committed — no git repo found under ");
    push_str(&mut t, root);
    push_str(&mut t, ": ");
    let j = crate::text::join_strings(files.as_slice(), ", ");
    proof {
        assert(crate::text::views(files@) =~= files.deep_view());
    }
    push_str(&mut t, j.as_str());
    lines.push(eprint_notice_text(t.as_str(), on));
    proof {
        assert(lines.deep_view() =~= before + unversioned_notice(files.deep_view(), root@, on));
    }
}

pub open spec fn count_with_url(outcomes: Seq<crate::github::pull_request::PullRequestOutcome>) -> nat
    decreases outcomes.len(),
{
    if outcomes.len() == 0 {
        0
    } else {
        count_with_url(outcomes.drop_last()) + (if outcomes.last().url is Some { 1nat } else { 0nat })
    }
}

pub open spec fn pr_rows(outcomes: Seq<crate::github::pull_request::PullRequestOutcome>, root: Seq<char>, on: bool) -> Seq<Seq<char>>
    decreases outcomes.len(),
{
    if outcomes.len() == 0 {
        seq![]
    } else {
        let o = outcomes.last();
        pr_rows(outcomes.drop_last(), root, on).push(notice(
            "  "@ + relative_to(o.repo@, root) + " — branch '"@ + o.branch@ + "'"@ + (match o.url {
                Some(u) => " -> "@ + u@,
                None => seq![],
            }),
            on,
        ))
    }
}

/// The stderr lines after opening pull requests: one per repository,
/// then the files no repository owns, then a count when several
/// repositories were involved.
pub open spec fn pr_batch_lines(b: PullRequestBatch, root: Seq<char>, on: bool) -> Seq<Seq<char>> {
    pr_rows(b.outcomes@, root, on) + unversioned_notice(b.unversioned.deep_view(), root, on) + (if b.outcomes@.len()
        > 1 {
        seq![notice(decimal(count_with_url(b.outcomes@)) + " pull requests opened across "@ + decimal(
            b.outcomes@.len(),
        ) + " repos"@, on)]
    } else {
        seq![]
    })
}

pub fn print_pull_request_batch(batch: &PullRequestBatch, workspace_root: &str, on: bool) -> (r: Vec<String>)
    ensures
        r.deep_view() == pr_batch_lines(*batch, workspace_root@, on),
{
    let mut lines: Vec<String> = Vec::new();
    let mut i: usize = 0;
    let mut with_url: usize = 0;
    while i < batch.outcomes.len()
        invariant
            i <= batch.outcomes@.len(),
            lines.deep_view() == pr_rows(batch.outcomes@.take(i as int), workspace_root@, on),
            with_url == count_with_url(batch.outcomes@.take(i as int)),
            with_url <= i,
        decreases batch.outcomes@.len() - i,
    {
        let o = &batch.outcomes[i];
        let mut t = copy_str("  ");
        let rel = relative(o.repo.as_str(), workspace_root);
        push_str(&mut t, rel.as_str());
        push_str(&mut t, " — branch '");
        push_str(&mut t, o.branch.as_str());
        push_str(&mut t, "'");
        match &o.url {
            Some(u) => {
                push_str(&mut t, " -> ");
                push_str(&mut t, u.as_str());
                with_url = with_url + 1;
            },
            None => {},
        }
        let ghost before = lines.deep_view();
        let line = eprint_notice_text(t.as_str(), on);
        lines.push(line);
        proof {
            let tk = batch.outcomes@.take(i + 1);
            assert(tk.drop_last() =~= batch.outcomes@.take(i as int));
            assert(tk.last() == *o);
            assert(t@ =~= "  "@ + relative_to(o.repo@, workspace_root@) + " — branch '"@ + o.branch@ + "'"@ + (match o.url {
                Some(u) => " -> "@ + u@,
                None => seq![],
            }));
            assert(lines.deep_view() =~= before.push(line@));
            assert(lines.deep_view() =~= pr_rows(tk, workspace_root@, on));
        }
        i = i + 1;
    }
    proof {
        assert(batch.outcomes@.take(i as int) =~= batch.outcomes@);
    }
    push_unversioned(&mut lines, &batch.unversioned, workspace_root, on);
    let ghost mid = lines.deep_view();
    if batch.outcomes.len() > 1 {
        let mut t = decimal_string(with_url as u64);
        push_str(&mut t, " pull requests opened across ");
        let n = decimal_string(batch.outcomes.len() as u64);
        push_str(&mut t, n.as_str());
        push_str(&mut t, " repos");
        lines.push(eprint_notice_text(t.as_str(), on));
    }
    proof {
        assert(lines.deep_view() =~= pr_batch_lines(*batch, workspace_root@, on));
    }
    lines
}

pub open spec fn commit_rows(outcomes: Seq<crate::github::pull_request::RepoCommitOutcome>, root: Seq<char>, on: bool) -> Seq<Seq<char>>
    decreases outcomes.len(),
{
    if outcomes.len() == 0 {
        seq![]
    } else {
        let o = outcomes.last();
        commit_rows(outcomes.drop_last(), root, on).push(
            notice("  "@ + relative_to(o.repo@, root) + " — "@ + o.label@, on),
        )
    }
}

/// The stderr lines after committing without a pull request: one per
/// repository, then the files no repository owns.
pub fn print_repo_commit_batch(batch: &RepoCommitBatch, workspace_root: &str, on: bool) -> (r: Vec<String>)
    ensures
        r.deep_view() == commit_rows(batch.outcomes@, workspace_root@, on) + unversioned_notice(
            batch.unversioned.deep_view(),
            workspace_root@,
            on,
        ),
{
    let mut lines: Vec<String> = Vec::new();
    let mut i: usize = 0;
    while i < batch.outcomes.len()
        invariant
            i <= batch.outcomes@.len(),
            lines.deep_view() == commit_rows(batch.outcomes@.take(i as int), workspace_root@, on),
        decreases batch.outcomes@.len() - i,
    {
        let o = &batch.outcomes[i];
        let mut t = copy_str("  ");
        let rel = relative(o.repo.as_str(), workspace_root);
        push_str(&mut t, rel.as_str());
        push_str(&mut t, " — ");
        push_str(&mut t, o.label.as_str());
        let ghost before = lines.deep_view();
        let line = eprint_notice_text(t.as_str(), on);
        lines.push(line);
        proof {
            let tk = batch.outcomes@.take(i + 1);
            assert(tk.drop_last() =~= batch.outcomes@.take(i as int));
            assert(tk.last() == *o);
            assert(lines.deep_view() =~= before.push(line@));
            assert(lines.deep_view() =~= commit_rows(tk, workspace_root@, on));
        }
        i = i + 1;
    }
    proof {
        assert(batch.outcomes@.take(i as int) =~= batch.outcomes@);
    }
    push_unversioned(&mut lines, &batch.unversioned, workspace_root, on);
    lines
}


// ---------------------------------------------------------------------
// The workspace overview
// ---------------------------------------------------------------------

/// One repository under the workspace and every execution stored in it.
pub struct RepoOverview {
    pub path: String,
    pub executions: Vec<Execution>,
}

/// What `status` with no execution id shows: every repository found under
/// the workspace, and whether the search stopped early.
pub struct WorkspaceOverview {
    pub workspace_root: String,
    pub repos: Vec<RepoOverview>,
    pub scan_capped: bool,
}

pub open spec fn exec_at(o: WorkspaceOverview, k: (int, int)) -> ExecutionView {
    o.repos@[k.0].executions@[k.1]@
}

/// Every (repository, execution) position, repository by repository.
pub open spec fn positions(o: WorkspaceOverview, upto: int) -> Seq<(int, int)>
    decreases upto,
{
    if upto <= 0 {
        seq![]
    } else {
        positions(o, upto - 1) + Seq::new(o.repos@[upto - 1].executions@.len(), |j: int| (upto - 1, j))
    }
}

/// The first position whose execution was updated strictly before `t`.
pub open spec fn first_older(o: WorkspaceOverview, s: Seq<(int, int)>, t: Timestamp) -> int
    decreases s.len(),
{
    if s.len() == 0 {
        0
    } else if earlier(exec_at(o, s[0]).updated_at, t) {
        0
    } else {
        1 + first_older(o, s.drop_first(), t)
    }
}

/// Newest first; executions updated at the same instant keep their order.
pub open spec fn newest_first(o: WorkspaceOverview, s: Seq<(int, int)>) -> Seq<(int, int)>
    decreases s.len(),
{
    if s.len() == 0 {
        seq![]
    } else {
        let rest = newest_first(o, s.drop_last());
        let p = first_older(o, rest, exec_at(o, s.last()).updated_at);
        rest.take(p) + seq![s.last()] + rest.skip(p)
    }
}

pub open spec fn active(e: ExecutionView) -> bool {
    e.status == ExecutionStatus::Running || e.status == ExecutionStatus::WaitingForHuman
}

pub open spec fn pick(o: WorkspaceOverview, s: Seq<(int, int)>, want_active: bool) -> Seq<(int, int)>
    decreases s.len(),
{
    if s.len() == 0 {
        seq![]
    } else {
        let rest = pick(o, s.drop_last(), want_active);
        if active(exec_at(o, s.last())) == want_active {
            rest.push(s.last())
        } else {
            rest
        }
    }
}

pub open spec fn count_status(o: WorkspaceOverview, s: Seq<(int, int)>, waiting_only: bool) -> nat
    decreases s.len(),
{
    if s.len() == 0 {
        0
    } else {
        let e = exec_at(o, s.last());
        count_status(o, s.drop_last(), waiting_only) + (if (waiting_only && e.status
            == ExecutionStatus::WaitingForHuman) || (!waiting_only && active(e)) {
            1nat
        } else {
            0nat
        })
    }
}

pub open spec fn repo_is_active(r: RepoOverview) -> bool {
    exists|j: int| 0 <= j < r.executions@.len() && active(#[trigger] r.executions@[j]@)
}

pub open spec fn active_repos(repos: Seq<RepoOverview>) -> nat
    decreases repos.len(),
{
    if repos.len() == 0 {
        0
    } else {
        active_repos(repos.drop_last()) + (if repo_is_active(repos.last()) { 1nat } else { 0nat })
    }
}

pub open spec fn pad(s: Seq<char>, width: nat) -> Seq<char> {
    if s.len() >= width {
        s
    } else {
        s + Seq::new((width - s.len()) as nat, |i: int| ' ')
    }
}

pub open spec fn plural(n: nat) -> Seq<char> {
    if n == 1 {
        seq![]
    } else {
        "s"@
    }
}

pub open spec fn repo_label(path: Seq<char>, root: Seq<char>) -> Seq<char> {
    if relative_to(path, root).len() == 0 {
        "."@
    } else {
        relative_to(path, root)
    }
}

pub open spec fn overview_row(o: WorkspaceOverview, k: (int, int)) -> Seq<char> {
    let e = exec_at(o, k);
    "  "@ + e.id + "  "@ + pad(repo_label(o.repos@[k.0].path@, o.workspace_root@), 24) + "  "@ + pad(
        e.capability,
        10,
    ) + "  "@ + status_text(e.status) + "  "@ + first_line(e.change_request) + "\n"@
}

pub open spec fn overview_rows(o: WorkspaceOverview, s: Seq<(int, int)>) -> Seq<char>
    decreases s.len(),
{
    if s.len() == 0 {
        seq![]
    } else {
        overview_rows(o, s.drop_last()) + overview_row(o, s.last())
    }
}

pub open spec fn active_line(n_active: nat, n_repos: nat, n_waiting: nat) -> Seq<char> {
    if n_active > 0 {
        "  active    "@ + decimal(n_active) + " execution"@ + plural(n_active) + " across "@ + decimal(n_repos)
            + " repo"@ + plural(n_repos) + (if n_waiting > 0 {
            " ("@ + decimal(n_waiting) + " waiting for human)"@
        } else {
            seq![]
        }) + "\n"@
    } else {
        seq![]
    }
}

pub open spec fn overview_header(o: WorkspaceOverview) -> Seq<char> {
    let all = positions(o, o.repos@.len() as int);
    let n_active = count_status(o, all, false);
    let n_waiting = count_status(o, all, true);
    let n_repos = active_repos(o.repos@);
    "\nksforge\n"@ + rule() + "\n\nWorkspace:\n  path      "@ + o.workspace_root@ + "\n  repos     "@ + decimal(
        o.repos@.len(),
    ) + "\n"@ + active_line(n_active, n_repos, n_waiting) + (if o.scan_capped {
        "  note      repo scan stopped early (workspace is very large)\n"@
    } else {
        seq![]
    })
}

pub open spec fn overview_footer() -> Seq<char> {
    "\nCapabilities: "@ + join(default_capabilities().map_values(|k| capability_id(k)), ", "@) + "\n\n"@
        + "  ksforge status <id>                       full detail for one execution\n"@
        + "  ksforge resume <id> --decision <option>   unblock a waiting execution\n"@
        + "  ksforge coordinate --change \"...\"         check a new request against active work\n"@ + "\n"@
}

/// The workspace overview: the workspace and its counts, then (when any
/// repository was found) every active execution and the ten most recent
/// others, newest first, then the capabilities and the next commands.
pub open spec fn overview_text(o: WorkspaceOverview) -> Seq<char> {
    let sorted = newest_first(o, positions(o, o.repos@.len() as int));
    overview_header(o) + if o.repos@.len() == 0 {
        "\n(no git repositories found under this workspace)\n\n"@
    } else {
        "\nExecutions:\n"@ + (if sorted.len() == 0 {
            "  (none found)\n"@
        } else {
            let recent = pick(o, sorted, false);
            overview_rows(o, pick(o, sorted, true) + recent.take(if recent.len() < 10 {
                recent.len() as int
            } else {
                10
            }))
        }) + overview_footer()
    }
}


pub open spec fn pos_view(v: Seq<(usize, usize)>) -> Seq<(int, int)> {
    v.map_values(|p: (usize, usize)| (p.0 as int, p.1 as int))
}

pub open spec fn valid_positions(o: WorkspaceOverview, s: Seq<(usize, usize)>) -> bool {
    forall|i: int| 0 <= i < s.len() ==> (#[trigger] s[i]).0 < o.repos@.len() && s[i].1 < o.repos@[s[i].0 as int].executions@.len()
}

fn all_positions(o: &WorkspaceOverview) -> (r: Vec<(usize, usize)>)
    ensures
        pos_view(r@) == positions(*o, o.repos@.len() as int),
        valid_positions(*o, r@),
{
    let mut r: Vec<(usize, usize)> = Vec::new();
    let mut i: usize = 0;
    while i < o.repos.len()
        invariant
            i <= o.repos@.len(),
            pos_view(r@) == positions(*o, i as int),
            valid_positions(*o, r@),
        decreases o.repos@.len() - i,
    {
        let ghost base = pos_view(r@);
        let mut j: usize = 0;
        while j < o.repos[i].executions.len()
            invariant
                i < o.repos@.len(),
                j <= o.repos@[i as int].executions@.len(),
                pos_view(r@) == base + Seq::new(j as nat, |k: int| (i as int, k)),
                valid_positions(*o, r@),
            decreases o.repos@[i as int].executions@.len() - j,
        {
            let ghost before = pos_view(r@);
            r.push((i, j));
            proof {
                assert(pos_view(r@) =~= before.push((i as int, j as int)));
                assert(base + Seq::new((j + 1) as nat, |k: int| (i as int, k)) =~= (base + Seq::new(
                    j as nat,
                    |k: int| (i as int, k),
                )).push((i as int, j as int)));
            }
            j = j + 1;
        }
        proof {
            assert(Seq::new(j as nat, |k: int| (i as int, k)) =~= Seq::new(
                o.repos@[i as int].executions@.len(),
                |k: int| (i as int, k),
            ));
        }
        i = i + 1;
    }
    r
}

fn stamp(o: &WorkspaceOverview, k: (usize, usize)) -> (r: Timestamp)
    requires
        k.0 < o.repos@.len(),
        k.1 < o.repos@[k.0 as int].executions@.len(),
    ensures
        r == exec_at(*o, (k.0 as int, k.1 as int)).updated_at,
{
    o.repos[k.0].executions[k.1].updated_at
}

proof fn lemma_first_older_skip(o: WorkspaceOverview, s: Seq<(int, int)>, t: Timestamp, p: int)
    requires
        0 <= p <= s.len(),
        forall|i: int| 0 <= i < p ==> !earlier(exec_at(o, #[trigger] s[i]).updated_at, t),
    ensures
        first_older(o, s, t) == p + first_older(o, s.skip(p), t),
    decreases p,
{
    if p > 0 {
        assert(s.drop_first().skip(p - 1) =~= s.skip(p));
        assert forall|i: int| 0 <= i < p - 1 implies !earlier(exec_at(o, #[trigger] s.drop_first()[i]).updated_at, t) by {
            assert(s.drop_first()[i] == s[i + 1]);
        }
        lemma_first_older_skip(o, s.drop_first(), t, p - 1);
    } else {
        assert(s.skip(0) =~= s);
    }
}

fn sort_newest_first(o: &WorkspaceOverview, all: &Vec<(usize, usize)>) -> (r: Vec<(usize, usize)>)
    requires
        valid_positions(*o, all@),
    ensures
        pos_view(r@) == newest_first(*o, pos_view(all@)),
        valid_positions(*o, r@),
{
    let ghost av = pos_view(all@);
    let mut sorted: Vec<(usize, usize)> = Vec::new();
    let mut i: usize = 0;
    while i < all.len()
        invariant
            i <= all@.len(),
            av == pos_view(all@),
            valid_positions(*o, all@),
            pos_view(sorted@) == newest_first(*o, av.take(i as int)),
            valid_positions(*o, sorted@),
        decreases all@.len() - i,
    {
        let x = all[i];
        proof {
            assert(av[i as int] == (x.0 as int, x.1 as int));
        }
        let t = stamp(o, x);
        let ghost sv = pos_view(sorted@);
        let mut p: usize = 0;
        while p < sorted.len() && !stamp(o, sorted[p]).is_earlier_than(&t)
            invariant
                p <= sorted@.len(),
                sv == pos_view(sorted@),
                valid_positions(*o, sorted@),
                t == exec_at(*o, (x.0 as int, x.1 as int)).updated_at,
                forall|k: int| 0 <= k < p ==> !earlier(exec_at(*o, #[trigger] sv[k]).updated_at, t),
            decreases sorted@.len() - p,
        {
            proof {
                assert(sv[p as int] == (sorted@[p as int].0 as int, sorted@[p as int].1 as int));
            }
            p = p + 1;
        }
        proof {
            lemma_first_older_skip(*o, sv, t, p as int);
            if p < sorted@.len() {
                let rest = sv.skip(p as int);
                assert(rest[0] == sv[p as int]);
                assert(sv[p as int] == (sorted@[p as int].0 as int, sorted@[p as int].1 as int));
                assert(first_older(*o, rest, t) == 0);
            } else {
                assert(sv.skip(p as int) =~= Seq::<(int, int)>::empty());
            }
            assert(first_older(*o, sv, t) == p);
            let tk = av.take(i + 1);
            assert(tk.drop_last() =~= av.take(i as int));
            assert(tk.last() == (x.0 as int, x.1 as int));
        }
        sorted.insert(p, x);
        proof {
            let nv = pos_view(sorted@);
            assert(nv =~= sv.take(p as int) + seq![(x.0 as int, x.1 as int)] + sv.skip(p as int));
        }
        i = i + 1;
    }
    proof {
        assert(av.take(i as int) =~= av);
    }
    sorted
}


fn is_active_status(e: &Execution) -> (r: bool)
    ensures
        r == active(e@),
{
    e.status == ExecutionStatus::Running || e.status == ExecutionStatus::WaitingForHuman
}

fn count_in(o: &WorkspaceOverview, v: &Vec<(usize, usize)>, waiting_only: bool) -> (r: u64)
    requires
        valid_positions(*o, v@),
        v@.len() < u64::MAX,
    ensures
        r == count_status(*o, pos_view(v@), waiting_only),
{
    let ghost vv = pos_view(v@);
    let mut n: u64 = 0;
    let mut i: usize = 0;
    while i < v.len()
        invariant
            i <= v@.len(),
            v@.len() < u64::MAX,
            vv == pos_view(v@),
            valid_positions(*o, v@),
            n == count_status(*o, vv.take(i as int), waiting_only),
            n <= i,
        decreases v@.len() - i,
    {
        let k = v[i];
        let e = &o.repos[k.0].executions[k.1];
        proof {
            assert(vv.take(i + 1).drop_last() =~= vv.take(i as int));
            assert(vv.take(i + 1).last() == (k.0 as int, k.1 as int));
        }
        if (waiting_only && e.status == ExecutionStatus::WaitingForHuman) || (!waiting_only && is_active_status(e)) {
            n = n + 1;
        }
        i = i + 1;
    }
    proof {
        assert(vv.take(i as int) =~= vv);
    }
    n
}

fn count_active_repos(o: &WorkspaceOverview) -> (r: u64)
    requires
        o.repos@.len() < u64::MAX,
    ensures
        r == active_repos(o.repos@),
{
    let mut n: u64 = 0;
    let mut i: usize = 0;
    while i < o.repos.len()
        invariant
            i <= o.repos@.len(),
            o.repos@.len() < u64::MAX,
            n == active_repos(o.repos@.take(i as int)),
            n <= i,
        decreases o.repos@.len() - i,
    {
        let r = &o.repos[i];
        let mut any = false;
        let mut j: usize = 0;
        while j < r.executions.len()
            invariant
                j <= r.executions@.len(),
                any <==> exists|k: int| 0 <= k < j && active(#[trigger] r.executions@[k]@),
            decreases r.executions@.len() - j,
        {
            if is_active_status(&r.executions[j]) {
                any = true;
            }
            j = j + 1;
        }
        proof {
            assert(o.repos@.take(i + 1).drop_last() =~= o.repos@.take(i as int));
            assert(o.repos@.take(i + 1).last() == *r);
        }
        if any {
            n = n + 1;
        }
        i = i + 1;
    }
    proof {
        assert(o.repos@.take(i as int) =~= o.repos@);
    }
    n
}

pub(crate) fn push_padded(s: &mut String, text: &str, width: usize)
    ensures
        final(s)@ == old(s)@ + pad(text@, width as nat),
{
    let ghost base = s@;
    push_str(s, text);
    let mut k = text.unicode_len();
    let ghost mid = s@;
    while k < width
        invariant
            k >= text@.len(),
            text@.len() < width ==> k <= width,
            text@.len() >= width ==> k == text@.len(),
            s@ == mid + Seq::new((k - text@.len()) as nat, |i: int| ' '),
        decreases width - k,
    {
        push_str(s, " ");
        proof {
            reveal_strlit(" ");
            assert(s@ =~= mid + Seq::new((k + 1 - text@.len()) as nat, |i: int| ' '));
        }
        k = k + 1;
    }
    proof {
        if text@.len() >= width {
            assert(s@ =~= base + text@);
        } else {
            assert(s@ =~= base + pad(text@, width as nat));
        }
    }
}

fn push_overview_row(s: &mut String, o: &WorkspaceOverview, k: (usize, usize))
    requires
        k.0 < o.repos@.len(),
        k.1 < o.repos@[k.0 as int].executions@.len(),
    ensures
        final(s)@ == old(s)@ + overview_row(*o, (k.0 as int, k.1 as int)),
{
    let ghost base = s@;
    let e = &o.repos[k.0].executions[k.1];
    push_str(s, "  ");
    push_str(s, e.id.0.as_str());
    push_str(s, "  ");
    let rel = relative(o.repos[k.0].path.as_str(), o.workspace_root.as_str());
    let label = if rel.unicode_len() == 0 { copy_str(".") } else { rel };
    push_padded(s, label.as_str(), 24);
    push_str(s, "  ");
    push_padded(s, e.capability.as_str(), 10);
    push_str(s, "  ");
    push_str(s, e.status.as_str());
    push_str(s, "  ");
    let l = first_line_str(e.change_request.text.as_str());
    push_str(s, l.as_str());
    push_str(s, "\n");
    proof {
        assert(s@ =~= base + overview_row(*o, (k.0 as int, k.1 as int)));
    }
}

/// The positions in `v` whose execution is (or is not) active, in order.
fn pick_in(o: &WorkspaceOverview, v: &Vec<(usize, usize)>, want_active: bool) -> (r: Vec<(usize, usize)>)
    requires
        valid_positions(*o, v@),
    ensures
        pos_view(r@) == pick(*o, pos_view(v@), want_active),
        valid_positions(*o, r@),
{
    let ghost vv = pos_view(v@);
    let mut r: Vec<(usize, usize)> = Vec::new();
    let mut i: usize = 0;
    while i < v.len()
        invariant
            i <= v@.len(),
            vv == pos_view(v@),
            valid_positions(*o, v@),
            valid_positions(*o, r@),
            pos_view(r@) == pick(*o, vv.take(i as int), want_active),
        decreases v@.len() - i,
    {
        let k = v[i];
        proof {
            assert(vv.take(i + 1).drop_last() =~= vv.take(i as int));
            assert(vv.take(i + 1).last() == (k.0 as int, k.1 as int));
        }
        if is_active_status(&o.repos[k.0].executions[k.1]) == want_active {
            let ghost before = pos_view(r@);
            r.push(k);
            proof {
                assert(pos_view(r@) =~= before.push((k.0 as int, k.1 as int)));
            }
        }
        i = i + 1;
    }
    proof {
        assert(vv.take(i as int) =~= vv);
    }
    r
}

fn push_overview_rows(s: &mut String, o: &WorkspaceOverview, v: &Vec<(usize, usize)>, count: usize)
    requires
        valid_positions(*o, v@),
        count <= v@.len(),
    ensures
        final(s)@ == old(s)@ + overview_rows(*o, pos_view(v@).take(count as int)),
{
    let ghost base = s@;
    let ghost vv = pos_view(v@);
    let mut i: usize = 0;
    while i < count
        invariant
            i <= count,
            count <= v@.len(),
            vv == pos_view(v@),
            valid_positions(*o, v@),
            s@ == base + overview_rows(*o, vv.take(i as int)),
        decreases count - i,
    {
        push_overview_row(s, o, v[i]);
        proof {
            assert(vv.take(i + 1).drop_last() =~= vv.take(i as int));
            assert(vv.take(i + 1).last() == (v@[i as int].0 as int, v@[i as int].1 as int));
        }
        i = i + 1;
    }
}

proof fn lemma_rows_concat(o: WorkspaceOverview, a: Seq<(int, int)>, b: Seq<(int, int)>)
    ensures
        overview_rows(o, a + b) == overview_rows(o, a) + overview_rows(o, b),
    decreases b.len(),
{
    if b.len() == 0 {
        assert(a + b =~= a);
    } else {
        assert((a + b).drop_last() =~= a + b.drop_last());
        lemma_rows_concat(o, a, b.drop_last());
    }
}

fn push_active_line(s: &mut String, n_active: u64, n_repos: u64, n_waiting: u64)
    ensures
        final(s)@ == old(s)@ + active_line(n_active as nat, n_repos as nat, n_waiting as nat),
{
    let ghost a = s@;
    if n_active > 0 {
        push_str(s, "  active    ");
        let t = decimal_string(n_active);
        push_str(s, t.as_str());
        push_str(s, " execution");
        if n_active != 1 {
            push_str(s, "s");
        }
        push_str(s, " across ");
        let t2 = decimal_string(n_repos);
        push_str(s, t2.as_str());
        push_str(s, " repo");
        if n_repos != 1 {
            push_str(s, "s");
        }
        let ghost c = s@;
        if n_waiting > 0 {
            push_str(s, " (");
            let t3 = decimal_string(n_waiting);
            push_str(s, t3.as_str());
            push_str(s, " waiting for human)");
        }
        let ghost d = s@;
        push_str(s, "\n");
        proof {
            if n_waiting == 0 {
                assert(d =~= c + Seq::<char>::empty());
            }
        }
    }
    proof {
        assert(s@ =~= a + active_line(n_active as nat, n_repos as nat, n_waiting as nat));
    }
}

fn push_overview_header(s: &mut String, o: &WorkspaceOverview, all: &Vec<(usize, usize)>)
    requires
        valid_positions(*o, all@),
        pos_view(all@) == positions(*o, o.repos@.len() as int),
        all@.len() < u64::MAX,
        o.repos@.len() < u64::MAX,
    ensures
        final(s)@ == old(s)@ + overview_header(*o),
{
    let ghost base = s@;
    let n_active = count_in(o, all, false);
    let n_waiting = count_in(o, all, true);
    let n_repos = count_active_repos(o);
    push_str(s, "\nksforge\n");
    push_rule(s);
    push_str(s, "\n\nWorkspace:\n  path      ");
    push_str(s, o.workspace_root.as_str());
    push_str(s, "\n  repos     ");
    let nr = decimal_string(o.repos.len() as u64);
    push_str(s, nr.as_str());
    push_str(s, "\n");
    push_active_line(s, n_active, n_repos, n_waiting);
    let ghost b = s@;
    if o.scan_capped {
        push_str(s, "  note      repo scan stopped early (workspace is very large)\n");
    }
    proof {
        if !o.scan_capped {
            assert(s@ =~= b + Seq::<char>::empty());
        }
        assert(s@ =~= base + overview_header(*o));
    }
}

fn push_overview_footer(s: &mut String)
    ensures
        final(s)@ == old(s)@ + overview_footer(),
{
    let ghost base = s@;
    let registry = CapabilityRegistry::with_defaults();
    let list = registry.list();
    let mut ids: Vec<String> = Vec::new();
    let mut i: usize = 0;
    while i < list.len()
        invariant
            i <= list@.len(),
            list@ == default_capabilities(),
            crate::text::views(ids@) == default_capabilities().map_values(|k| capability_id(k)).take(i as int),
        decreases list@.len() - i,
    {
        let ghost before = crate::text::views(ids@);
        ids.push(copy_str(list[i].id()));
        proof {
            assert(crate::text::views(ids@) =~= before.push(capability_id(list@[i as int])));
            assert(default_capabilities().map_values(|k| capability_id(k)).take(i + 1) =~= default_capabilities().map_values(
                |k| capability_id(k),
            ).take(i as int).push(capability_id(list@[i as int])));
        }
        i = i + 1;
    }
    proof {
        assert(default_capabilities().map_values(|k| capability_id(k)).take(i as int) =~= default_capabilities().map_values(
            |k| capability_id(k),
        ));
    }
    push_str(s, "\nCapabilities: ");
    let j = crate::text::join_strings(ids.as_slice(), ", ");
    push_str(s, j.as_str());
    push_str(s, "\n\n");
    push_str(s, "  ksforge status <id>                       full detail for one execution\n");
    push_str(s, "  ksforge resume <id> --decision <option>   unblock a waiting execution\n");
    push_str(s, "  ksforge coordinate --change \"...\"         check a new request against active work\n");
    push_str(s, "\n");
    proof {
        assert(s@ =~= base + overview_footer());
    }
}

/// The workspace overview, as `--format text` prints it.
pub fn render_workspace_overview(o: &WorkspaceOverview) -> (r: String)
    requires
        o.repos@.len() < u64::MAX,
        positions(*o, o.repos@.len() as int).len() < u64::MAX,
    ensures
        r@ == overview_text(*o),
{
    let all = all_positions(o);
    let mut s = String::new();
    push_overview_header(&mut s, o, &all);
    let ghost head = s@;
    if o.repos.len() == 0 {
        push_str(&mut s, "\n(no git repositories found under this workspace)\n\n");
        proof {
            assert(s@ =~= overview_text(*o));
        }
        return s;
    }
    push_str(&mut s, "\nExecutions:\n");
    let sorted = sort_newest_first(o, &all);
    let ghost sv = pos_view(sorted@);
    let ghost mid = s@;
    if sorted.len() == 0 {
        push_str(&mut s, "  (none found)\n");
    } else {
        let act = pick_in(o, &sorted, true);
        let recent = pick_in(o, &sorted, false);
        push_overview_rows(&mut s, o, &act, act.len());
        let n = if recent.len() < 10 { recent.len() } else { 10 };
        push_overview_rows(&mut s, o, &recent, n);
        proof {
            assert(pos_view(act@).take(act@.len() as int) =~= pos_view(act@));
            lemma_rows_concat(*o, pick(*o, sv, true), pick(*o, sv, false).take(n as int));
        }
    }
    push_overview_footer(&mut s);
    proof {
        assert(s@ =~= overview_text(*o));
    }
    s
}

} // verus!
