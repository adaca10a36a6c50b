//! The markdown body of ksforge's status and decision comment on a pull
//! request. Rendering is pure; posting it is the caller's part.
use vstd::prelude::*;

use crate::application::resume::option_by_id;
use crate::domain::execution::{
    CommandView, DecisionOption, EventView, Execution, ExecutionEvent, ExecutionStatus, ExecutionView,
    GateView, HumanDecisionRequest, OptionView, ReportView, ResultView,
};
use crate::text::{contains_seq, copy_str, decimal, decimal_string, occurs_at, push_str, str_eq};

verus! {

/// The HTML-comment marker ksforge finds its own comment by, so it can
/// update it in place instead of appending a new one.
pub open spec fn marker(execution_id: Seq<char>) -> Seq<char> {
    "<!-- ksforge:execution="@ + execution_id + ":report -->"@
}

pub fn marker_for(execution_id: &str) -> (r: String)
    ensures
        r@ == marker(execution_id@),
{
    let mut s = copy_str("<!-- ksforge:execution=");
    push_str(&mut s, execution_id);
    push_str(&mut s, ":report -->");
    s
}

/// One `- item` line per item.
pub open spec fn bullets(items: Seq<Seq<char>>) -> Seq<char>
    decreases items.len(),
{
    if items.len() == 0 {
        seq![]
    } else {
        bullets(items.drop_last()) + "- "@ + items.last() + "\n"@
    }
}

pub open spec fn bullets_or(items: Seq<Seq<char>>, fallback: Seq<char>) -> Seq<char> {
    if items.len() == 0 {
        "- "@ + fallback + "\n"@
    } else {
        bullets(items)
    }
}

/// The label of the option `id` names, or `id` itself when none does.
pub open spec fn label_for(options: Seq<OptionView>, id: Seq<char>) -> Seq<char> {
    match option_by_id(options, id) {
        Some(o) => o.label,
        None => id,
    }
}

pub open spec fn paragraph_if(text: Seq<char>) -> Seq<char> {
    if text.len() > 0 {
        text + "\n\n"@
    } else {
        seq![]
    }
}

pub open spec fn recommendation_block(rec: Option<Seq<char>>, context: Seq<char>, options: Seq<OptionView>) -> Seq<char> {
    match rec {
        Some(r) => "**"@ + label_for(options, r) + "**\n\n"@ + paragraph_if(context),
        None => if context.len() > 0 {
            context + "\n\n"@
        } else {
            "No recommendation given.\n\n"@
        },
    }
}

/// Each option numbered from 1, with the comment that picks it.
pub open spec fn option_lines(options: Seq<OptionView>) -> Seq<char>
    decreases options.len(),
{
    if options.len() == 0 {
        seq![]
    } else {
        option_lines(options.drop_last()) + decimal(options.len()) + ". **"@ + options.last().label + "**\n"@
            + "   `/ksforge choose "@ + options.last().id + "`\n\n"@
    }
}

pub open spec fn heading(title: Seq<char>, id: Seq<char>) -> Seq<char> {
    "## ksforge — "@ + title + "\n\n"@ + "**Execution:** `"@ + id + "`\n\n"@
}

pub open spec fn running_body(e: ExecutionView) -> Seq<char> {
    heading("Running"@, e.id) + "**Status:** `RUNNING`\n"@
}

pub open spec fn next_steps() -> Seq<char> {
    "After a decision is received, ksforge will resume this execution, provide the selected decision to the coding agent, continue the implementation, and run validation again.\n\n"@
}

pub open spec fn waiting_body(e: ExecutionView) -> Seq<char> {
    match e.pending_question {
        None => running_body(e),
        Some(g) => heading("Decision required"@, e.id) + "### Completed\n\n"@ + bullets_or(
            g.completed,
            "No prior progress recorded."@,
        ) + "\n"@ + "### Still open\n\n"@ + g.question + "\n\n"@ + "### Recommendation\n\n"@
            + recommendation_block(g.recommended_option, g.context, g.options) + "### Options\n\n"@
            + option_lines(g.options) + "### What happens next\n\n"@ + next_steps()
            + "**Status:** `WAITING_FOR_HUMAN`\n"@,
    }
}

pub open spec fn command_lines(cs: Seq<CommandView>) -> Seq<char>
    decreases cs.len(),
{
    if cs.len() == 0 {
        seq![]
    } else {
        command_lines(cs.drop_last()) + "- `"@ + cs.last().command + "`: "@ + (if cs.last().passed {
            "passed"@
        } else {
            "failed"@
        }) + "\n"@
    }
}

pub open spec fn review_block(rv: ReportView) -> Seq<char> {
    "### Validation (agent)\n\n"@ + rv.summary + "\n\n"@ + bullets(rv.completed) + (if rv.open_items.len() > 0 {
        "\nFurther findings:\n\n"@ + bullets(rv.open_items)
    } else {
        seq![]
    }) + (match rv.recommendation {
        Some(rec) => "\nRecommendation: "@ + rec + "\n"@,
        None => seq![],
    }) + "\n"@
}

/// The option each `HumanDecided` event picked, in order.
pub open spec fn decided_options(messages: Seq<EventView>) -> Seq<Seq<char>>
    decreases messages.len(),
{
    if messages.len() == 0 {
        seq![]
    } else {
        let rest = decided_options(messages.drop_last());
        match messages.last() {
            EventView::HumanDecided { option, .. } => rest.push(option),
            _ => rest,
        }
    }
}

/// Gates are raised one at a time, so the n-th decision answers the n-th
/// gate: each gate paired with its answer, as far as both go.
pub open spec fn decision_history(e: ExecutionView) -> Seq<(GateView, Seq<char>)> {
    let d = decided_options(e.messages);
    let n = if e.gates.len() < d.len() { e.gates.len() } else { d.len() };
    Seq::new(n, |i: int| (e.gates[i], d[i]))
}

pub open spec fn decision_lines(h: Seq<(GateView, Seq<char>)>) -> Seq<char>
    decreases h.len(),
{
    if h.len() == 0 {
        seq![]
    } else {
        decision_lines(h.drop_last()) + "- "@ + h.last().0.question + ": "@ + label_for(h.last().0.options, h.last().1)
            + "\n"@
    }
}

pub open spec fn completed_items(e: ExecutionView) -> Seq<char> {
    "### Completed\n\n"@ + bullets_or(
        match e.result {
            Some(r) => r.completed,
            None => seq![],
        },
        "No details reported."@,
    ) + "\n"@
}

pub open spec fn validation_part(e: ExecutionView) -> Seq<char> {
    match e.result {
        Some(r) => if r.validation.commands.len() > 0 {
            "### Validation\n\n"@ + command_lines(r.validation.commands) + "\n"@
        } else {
            seq![]
        },
        None => seq![],
    }
}

pub open spec fn review_part(e: ExecutionView) -> Seq<char> {
    match e.result {
        Some(r) => match r.validation.agent_review {
            Some(rv) => review_block(rv),
            None => seq![],
        },
        None => seq![],
    }
}

pub open spec fn decisions_part(e: ExecutionView) -> Seq<char> {
    if decision_history(e).len() > 0 {
        "### Human decisions\n\n"@ + decision_lines(decision_history(e)) + "\n"@
    } else {
        seq![]
    }
}

pub open spec fn open_part(e: ExecutionView) -> Seq<char> {
    match e.result {
        Some(r) => if r.open_items.len() > 0 {
            "### Open items\n\n"@ + bullets(r.open_items) + "\n"@
        } else {
            seq![]
        },
        None => seq![],
    }
}

pub open spec fn final_recommendation(e: ExecutionView) -> Seq<char> {
    "### Recommendation\n\n"@ + match e.result {
        Some(r) => match r.recommendation {
            Some(x) => if x.len() > 0 {
                x + "\n\n"@
            } else {
                "No further action required.\n\n"@
            },
            None => "No further action required.\n\n"@,
        },
        None => "No further action required.\n\n"@,
    }
}

pub open spec fn completed_body(e: ExecutionView) -> Seq<char> {
    heading("Completed"@, e.id) + completed_items(e) + validation_part(e) + review_part(e) + decisions_part(e)
        + open_part(e) + final_recommendation(e) + "**Status:** `COMPLETED`\n"@
}

pub open spec fn failed_body(e: ExecutionView) -> Seq<char> {
    heading("Failed"@, e.id) + "### Result\n\n"@ + "Failed: "@ + (match e.result {
        Some(r) => r.summary,
        None => "unknown error"@,
    }) + "\n\n"@ + "**Status:** `FAILED`\n"@
}

pub open spec fn cancelled_body(e: ExecutionView) -> Seq<char> {
    heading("Cancelled"@, e.id) + (match e.result {
        Some(r) => r.summary + "\n\n"@,
        None => seq![],
    }) + "**Status:** `CANCELLED`\n"@
}

/// The comment body: the marker line, then the section for the
/// execution's status.
pub open spec fn report_body(e: ExecutionView) -> Seq<char> {
    marker(e.id) + "\n"@ + match e.status {
        ExecutionStatus::WaitingForHuman => waiting_body(e),
        ExecutionStatus::Completed => completed_body(e),
        ExecutionStatus::Failed => failed_body(e),
        ExecutionStatus::Cancelled => cancelled_body(e),
        ExecutionStatus::Running => running_body(e),
    }
}

fn push_bullets(s: &mut String, items: &Vec<String>)
    ensures
        final(s)@ == old(s)@ + bullets(items.deep_view()),
{
    let ghost start = s@;
    let ghost iv = items.deep_view();
    let mut i: usize = 0;
    while i < items.len()
        invariant
            i <= items@.len(),
            iv == items.deep_view(),
            s@ == start + bullets(iv.take(i as int)),
        decreases items@.len() - i,
    {
        push_str(s, "- ");
        push_str(s, items[i].as_str());
        push_str(s, "\n");
        proof {
            assert(iv.take(i + 1).drop_last() =~= iv.take(i as int));
            assert(iv.take(i + 1).last() == items@[i as int]@);
        }
        i = i + 1;
    }
    proof {
        assert(iv.take(i as int) =~= iv);
    }
}

fn push_bullets_or(s: &mut String, items: &Vec<String>, fallback: &str)
    ensures
        final(s)@ == old(s)@ + bullets_or(items.deep_view(), fallback@),
{
    if items.len() == 0 {
        push_str(s, "- ");
        push_str(s, fallback);
        push_str(s, "\n");
    } else {
        push_bullets(s, items);
    }
}

fn find_label(options: &Vec<DecisionOption>, id: &str) -> (r: String)
    ensures
        r@ == label_for(options.deep_view(), id@),
{
    let ghost ov = options.deep_view();
    let mut i: usize = 0;
    proof {
        assert(ov.skip(0) =~= ov);
    }
    while i < options.len()
        invariant
            i <= options@.len(),
            ov == options.deep_view(),
            option_by_id(ov, id@) == option_by_id(ov.skip(i as int), id@),
        decreases options@.len() - i,
    {
        proof {
            let rest = ov.skip(i as int);
            assert(rest[0] == options@[i as int]@);
            assert(rest.drop_first() =~= ov.skip(i + 1));
        }
        if str_eq(options[i].id.as_str(), id) {
            return options[i].label.clone();
        }
        i = i + 1;
    }
    proof {
        assert(ov.skip(i as int) =~= Seq::<OptionView>::empty());
    }
    copy_str(id)
}

fn push_heading(s: &mut String, title: &str, id: &str)
    ensures
        final(s)@ == old(s)@ + heading(title@, id@),
{
    let ghost start = s@;
    push_str(s, "## ksforge — ");
    push_str(s, title);
    push_str(s, "\n\n");
    push_str(s, "**Execution:** `");
    push_str(s, id);
    push_str(s, "`\n\n");
    proof {
        assert(s@ =~= start + heading(title@, id@));
    }
}

fn push_running(s: &mut String, e: &Execution)
    ensures
        final(s)@ == old(s)@ + running_body(e@),
{
    let ghost start = s@;
    push_heading(s, "Running", e.id.0.as_str());
    push_str(s, "**Status:** `RUNNING`\n");
    proof {
        assert(s@ =~= start + running_body(e@));
    }
}

fn push_option_lines(s: &mut String, options: &Vec<DecisionOption>)
    ensures
        final(s)@ == old(s)@ + option_lines(options.deep_view()),
{
    let ghost start = s@;
    let ghost ov = options.deep_view();
    let mut i: usize = 0;
    while i < options.len()
        invariant
            i <= options@.len(),
            ov == options.deep_view(),
            s@ == start + option_lines(ov.take(i as int)),
        decreases options@.len() - i,
    {
        let n = decimal_string(i as u64 + 1);
        push_str(s, n.as_str());
        push_str(s, ". **");
        push_str(s, options[i].label.as_str());
        push_str(s, "**\n");
        push_str(s, "   `/ksforge choose ");
        push_str(s, options[i].id.as_str());
        push_str(s, "`\n\n");
        proof {
            assert(ov.take(i + 1).drop_last() =~= ov.take(i as int));
            assert(ov.take(i + 1).last() == options@[i as int]@);
            assert(ov.take(i + 1).len() == i + 1);
        }
        i = i + 1;
    }
    proof {
        assert(ov.take(i as int) =~= ov);
    }
}

fn push_recommendation(s: &mut String, rec: &Option<String>, context: &String, options: &Vec<DecisionOption>)
    ensures
        final(s)@ == old(s)@ + recommendation_block(crate::domain::execution::opt_str(*rec), context@, options.deep_view()),
{
    let ghost start = s@;
    match rec {
        Some(r) => {
            let label = find_label(options, r.as_str());
            push_str(s, "**");
            push_str(s, label.as_str());
            push_str(s, "**\n\n");
            let ghost mid = s@;
            if context.unicode_len() > 0 {
                push_str(s, context.as_str());
                push_str(s, "\n\n");
            }
            proof {
                if context@.len() == 0 {
                    assert(s@ =~= mid + Seq::<char>::empty());
                }
                assert(s@ =~= start + recommendation_block(crate::domain::execution::opt_str(*rec), context@, options.deep_view()));
            }
        },
        None => {
            if context.unicode_len() > 0 {
                push_str(s, context.as_str());
                push_str(s, "\n\n");
            } else {
                push_str(s, "No recommendation given.\n\n");
            }
        },
    }
}

fn push_waiting(s: &mut String, e: &Execution)
    ensures
        final(s)@ == old(s)@ + waiting_body(e@),
{
    let ghost start = s@;
    match &e.pending_question {
        None => push_running(s, e),
        Some(g) => {
            push_heading(s, "Decision required", e.id.0.as_str());
            push_str(s, "### Completed\n\n");
            push_bullets_or(s, &g.completed, "No prior progress recorded.");
            push_str(s, "\n");
            push_str(s, "### Still open\n\n");
            push_str(s, g.question.as_str());
            push_str(s, "\n\n");
            push_str(s, "### Recommendation\n\n");
            push_recommendation(s, &g.recommended_option, &g.context, &g.options);
            push_str(s, "### Options\n\n");
            push_option_lines(s, &g.options);
            push_str(s, "### What happens next\n\n");
            push_str(
                s,
                "After a decision is received, ksforge will resume this execution, provide the selected decision to the coding agent, continue the implementation, and run validation again.\n\n",
            );
            push_str(s, "**Status:** `WAITING_FOR_HUMAN`\n");
            proof {
                assert(s@ =~= start + waiting_body(e@));
            }
        },
    }
}

fn push_command_lines(s: &mut String, cs: &Vec<crate::domain::execution::ValidationCommandOutcome>)
    ensures
        final(s)@ == old(s)@ + command_lines(cs.deep_view()),
{
    let ghost start = s@;
    let ghost cv = cs.deep_view();
    let mut i: usize = 0;
    while i < cs.len()
        invariant
            i <= cs@.len(),
            cv == cs.deep_view(),
            s@ == start + command_lines(cv.take(i as int)),
        decreases cs@.len() - i,
    {
        push_str(s, "- `");
        push_str(s, cs[i].command.as_str());
        push_str(s, "`: ");
        if cs[i].passed {
            push_str(s, "passed");
        } else {
            push_str(s, "failed");
        }
        push_str(s, "\n");
        proof {
            assert(cv.take(i + 1).drop_last() =~= cv.take(i as int));
            assert(cv.take(i + 1).last() == cs@[i as int]@);
        }
        i = i + 1;
    }
    proof {
        assert(cv.take(i as int) =~= cv);
    }
}

fn push_review(s: &mut String, rv: &crate::domain::execution::AgentValidationReport)
    ensures
        final(s)@ == old(s)@ + review_block(rv@),
{
    let ghost start = s@;
    push_str(s, "### Validation (agent)\n\n");
    push_str(s, rv.summary.as_str());
    push_str(s, "\n\n");
    push_bullets(s, &rv.completed);
    let ghost a = s@;
    if rv.open_items.len() > 0 {
        push_str(s, "\nFurther findings:\n\n");
        push_bullets(s, &rv.open_items);
    }
    let ghost b = s@;
    match &rv.recommendation {
        Some(rec) => {
            push_str(s, "\nRecommendation: ");
            push_str(s, rec.as_str());
            push_str(s, "\n");
        },
        None => {},
    }
    let ghost c = s@;
    push_str(s, "\n");
    proof {
        if rv.open_items@.len() == 0 {
            assert(b =~= a + Seq::<char>::empty());
        }
        if rv.recommendation is None {
            assert(c =~= b + Seq::<char>::empty());
        }
        assert(s@ =~= start + review_block(rv@));
    }
}

/// Which gate each decision answered, by index into the gates, with the
/// option picked.
fn decisions_of(e: &Execution) -> (r: Vec<String>)
    ensures
        r.deep_view() == decided_options(e@.messages),
{
    let ghost mv = e@.messages;
    let mut r: Vec<String> = Vec::new();
    let mut i: usize = 0;
    while i < e.messages.len()
        invariant
            i <= e.messages@.len(),
            mv == e@.messages,
            mv == e.messages.deep_view(),
            r.deep_view() == decided_options(mv.take(i as int)),
        decreases e.messages@.len() - i,
    {
        proof {
            assert(mv.take(i + 1).drop_last() =~= mv.take(i as int));
            assert(mv.take(i + 1).last() == e.messages@[i as int]@);
        }
        match &e.messages[i] {
            ExecutionEvent::HumanDecided { option, .. } => {
                let ghost before = r.deep_view();
                r.push(option.clone());
                proof {
                    assert(r.deep_view() =~= before.push(option@));
                }
            },
            _ => {},
        }
        i = i + 1;
    }
    proof {
        assert(mv.take(i as int) =~= mv);
    }
    r
}

fn push_decisions(s: &mut String, e: &Execution)
    ensures
        final(s)@ == old(s)@ + decisions_part(e@),
{
    let ghost start = s@;
    let decided = decisions_of(e);
    let n = if e.gates.len() < decided.len() { e.gates.len() } else { decided.len() };
    let ghost h = decision_history(e@);
    proof {
        assert(h.len() == n);
    }
    if n == 0 {
        proof {
            assert(s@ =~= start + Seq::<char>::empty());
        }
        return;
    }
    push_str(s, "### Human decisions\n\n");
    let ghost base = s@;
    let mut i: usize = 0;
    while i < n
        invariant
            i <= n,
            n == h.len(),
            n <= e.gates@.len(),
            n <= decided@.len(),
            h == decision_history(e@),
            decided.deep_view() == decided_options(e@.messages),
            s@ == base + decision_lines(h.take(i as int)),
        decreases n - i,
    {
        let gate = &e.gates[i];
        let label = find_label(&gate.options, decided[i].as_str());
        push_str(s, "- ");
        push_str(s, gate.question.as_str());
        push_str(s, ": ");
        push_str(s, label.as_str());
        push_str(s, "\n");
        proof {
            assert(h[i as int] == (e@.gates[i as int], decided_options(e@.messages)[i as int]));
            assert(e@.gates[i as int] == gate@);
            assert(decided.deep_view()[i as int] == decided@[i as int]@);
            assert(h.take(i + 1).drop_last() =~= h.take(i as int));
            assert(h.take(i + 1).last() == h[i as int]);
        }
        i = i + 1;
    }
    push_str(s, "\n");
    proof {
        assert(h.take(i as int) =~= h);
        assert(s@ =~= start + ("### Human decisions\n\n"@ + decision_lines(h) + "\n"@));
    }
}

fn push_completed_items(s: &mut String, e: &Execution)
    ensures
        final(s)@ == old(s)@ + completed_items(e@),
{
    let ghost start = s@;
    push_str(s, "### Completed\n\n");
    match &e.result {
        Some(r) => push_bullets_or(s, &r.completed, "No details reported."),
        None => {
            let empty: Vec<String> = Vec::new();
            proof {
                assert(empty.deep_view() =~= Seq::<Seq<char>>::empty());
            }
            push_bullets_or(s, &empty, "No details reported.");
        },
    }
    push_str(s, "\n");
    proof {
        assert(s@ =~= start + completed_items(e@));
    }
}

fn push_validation_part(s: &mut String, e: &Execution)
    ensures
        final(s)@ == old(s)@ + validation_part(e@),
{
    let ghost start = s@;
    match &e.result {
        Some(r) => {
            if r.validation.commands.len() > 0 {
                push_str(s, "### Validation\n\n");
                push_command_lines(s, &r.validation.commands);
                push_str(s, "\n");
                proof {
                    assert(s@ =~= start + validation_part(e@));
                }
            } else {
                proof {
                    assert(s@ =~= start + validation_part(e@));
                }
            }
        },
        None => {
            proof {
                assert(s@ =~= start + validation_part(e@));
            }
        },
    }
}

fn push_review_part(s: &mut String, e: &Execution)
    ensures
        final(s)@ == old(s)@ + review_part(e@),
{
    let ghost start = s@;
    match &e.result {
        Some(r) => match &r.validation.agent_review {
            Some(rv) => push_review(s, rv),
            None => {
                proof {
                    assert(s@ =~= start + review_part(e@));
                }
            },
        },
        None => {
            proof {
                assert(s@ =~= start + review_part(e@));
            }
        },
    }
}

fn push_open_part(s: &mut String, e: &Execution)
    ensures
        final(s)@ == old(s)@ + open_part(e@),
{
    let ghost start = s@;
    match &e.result {
        Some(r) => {
            if r.open_items.len() > 0 {
                push_str(s, "### Open items\n\n");
                push_bullets(s, &r.open_items);
                push_str(s, "\n");
                proof {
                    assert(s@ =~= start + open_part(e@));
                }
            } else {
                proof {
                    assert(s@ =~= start + open_part(e@));
                }
            }
        },
        None => {
            proof {
                assert(s@ =~= start + open_part(e@));
            }
        },
    }
}

fn push_final_recommendation(s: &mut String, e: &Execution)
    ensures
        final(s)@ == old(s)@ + final_recommendation(e@),
{
    let ghost start = s@;
    push_str(s, "### Recommendation\n\n");
    let mut wrote = false;
    match &e.result {
        Some(r) => match &r.recommendation {
            Some(x) => {
                if x.unicode_len() > 0 {
                    push_str(s, x.as_str());
                    push_str(s, "\n\n");
                    wrote = true;
                }
            },
            None => {},
        },
        None => {},
    }
    if !wrote {
        push_str(s, "No further action required.\n\n");
    }
    proof {
        assert(s@ =~= start + final_recommendation(e@));
    }
}

fn push_completed(s: &mut String, e: &Execution)
    ensures
        final(s)@ == old(s)@ + completed_body(e@),
{
    let ghost start = s@;
    push_heading(s, "Completed", e.id.0.as_str());
    push_completed_items(s, e);
    push_validation_part(s, e);
    push_review_part(s, e);
    push_decisions(s, e);
    push_open_part(s, e);
    push_final_recommendation(s, e);
    push_str(s, "**Status:** `COMPLETED`\n");
    proof {
        assert(s@ =~= start + completed_body(e@));
    }
}

fn push_failed(s: &mut String, e: &Execution)
    ensures
        final(s)@ == old(s)@ + failed_body(e@),
{
    let ghost start = s@;
    push_heading(s, "Failed", e.id.0.as_str());
    push_str(s, "### Result\n\n");
    push_str(s, "Failed: ");
    match &e.result {
        Some(r) => push_str(s, r.summary.as_str()),
        None => push_str(s, "unknown error"),
    }
    push_str(s, "\n\n");
    push_str(s, "**Status:** `FAILED`\n");
    proof {
        assert(s@ =~= start + failed_body(e@));
    }
}

fn push_cancelled(s: &mut String, e: &Execution)
    ensures
        final(s)@ == old(s)@ + cancelled_body(e@),
{
    let ghost start = s@;
    push_heading(s, "Cancelled", e.id.0.as_str());
    let ghost a = s@;
    match &e.result {
        Some(r) => {
            push_str(s, r.summary.as_str());
            push_str(s, "\n\n");
        },
        None => {},
    }
    let ghost b = s@;
    push_str(s, "**Status:** `CANCELLED`\n");
    proof {
        if e@.result is None {
            assert(b =~= a + Seq::<char>::empty());
        }
        assert(s@ =~= start + cancelled_body(e@));
    }
}

/// The comment body for `execution`.
pub fn render(execution: &Execution) -> (r: String)
    ensures
        r@ == report_body(execution@),
{
    let mut s = marker_for(execution.id.0.as_str());
    push_str(&mut s, "\n");
    let ghost head = s@;
    match execution.status {
        ExecutionStatus::WaitingForHuman => push_waiting(&mut s, execution),
        ExecutionStatus::Completed => push_completed(&mut s, execution),
        ExecutionStatus::Failed => push_failed(&mut s, execution),
        ExecutionStatus::Cancelled => push_cancelled(&mut s, execution),
        ExecutionStatus::Running => push_running(&mut s, execution),
    }
    proof {
        assert(s@ =~= report_body(execution@));
    }
    s
}


// ---------------------------------------------------------------------
// Laws
// ---------------------------------------------------------------------

proof fn lemma_command_lines_flatten(cs: Seq<CommandView>)
    ensures
        command_lines(cs) == cs.map_values(
            |c: CommandView|
                "- `"@ + c.command + "`: "@ + (if c.passed {
                    "passed"@
                } else {
                    "failed"@
                }) + "\n"@,
        ).flatten(),
    decreases cs.len(),
{
    let f = |c: CommandView|
        "- `"@ + c.command + "`: "@ + (if c.passed {
            "passed"@
        } else {
            "failed"@
        }) + "\n"@;
    let m = cs.map_values(f);
    if cs.len() > 0 {
        lemma_command_lines_flatten(cs.drop_last());
        assert(m =~= cs.drop_last().map_values(f).push(f(cs.last())));
        cs.drop_last().map_values(f).lemma_flatten_push(f(cs.last()));
    } else {
        assert(m =~= Seq::<Seq<char>>::empty());
    }
}

/// A completed report has a `### Validation` section listing every
/// command that ran, in order, one line each, `- `command`: passed` when
/// that command passed and `- `command`: failed` when it did not.
pub proof fn lemma_report_states_each_command_result(e: ExecutionView)
    requires
        e.status == ExecutionStatus::Completed,
        e.result is Some,
        e.result->0.validation.commands.len() > 0,
    ensures
        contains_seq(
            report_body(e),
            "### Validation\n\n"@ + e.result->0.validation.commands.map_values(
                |c: CommandView|
                    "- `"@ + c.command + "`: "@ + (if c.passed {
                        "passed"@
                    } else {
                        "failed"@
                    }) + "\n"@,
            ).flatten() + "\n"@,
        ),
{
    let cs = e.result->0.validation.commands;
    lemma_command_lines_flatten(cs);
    let before = marker(e.id) + "\n"@ + heading("Completed"@, e.id) + completed_items(e);
    let after = review_part(e) + decisions_part(e) + open_part(e) + final_recommendation(e)
        + "**Status:** `COMPLETED`\n"@;
    let v = "### Validation\n\n"@ + command_lines(cs) + "\n"@;
    assert(report_body(e) =~= before + v + after);
    assert(report_body(e).subrange(before.len() as int, (before.len() + v.len()) as int) =~= v);
    assert(occurs_at(report_body(e), v, before.len() as int));
}

} // verus!
