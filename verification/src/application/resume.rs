//! Continuing a paused execution with the human's decision. The run
//! re-enters the phase loop at exactly the phase it paused at, never from
//! the start; the decision is also restated in that phase's prompt, so
//! correctness does not rest on the agent remembering the conversation.
use vstd::prelude::*;

use crate::domain::capability::{find_capability, CapabilityKind, CapabilityRegistry};
use crate::domain::error::KsforgeError;
use crate::domain::execution::{
    decided, opt_str, status_text, wf, Execution, ExecutionStatus, ExecutionView, GateView,
    HumanDecision, OptionView,
};
use crate::text::{copy_str, decimal, decimal_string, join, lemma_decimal_parses_back, parse_usize, parsed_usize, push_str, str_eq};

verus! {

/// Where a resumed run picks up.
pub struct Resumption {
    pub capability: CapabilityKind,
    /// Appended to the resumed phase's prompt: the question and the answer.
    pub decision_suffix: String,
    /// The agent conversation to continue.
    pub session_id: Option<String>,
}

/// The first option whose id is `id`.
pub open spec fn option_by_id(options: Seq<OptionView>, id: Seq<char>) -> Option<OptionView>
    decreases options.len(),
{
    if options.len() == 0 {
        None
    } else if options[0].id == id {
        Some(options[0])
    } else {
        option_by_id(options.drop_first(), id)
    }
}

/// The option a human's answer names: an option's own id first, so an id
/// that looks like a number is never shadowed by the position it sits
/// at; else the option at the position the answer gives (options are
/// listed from 0).
pub open spec fn chosen_option(options: Seq<OptionView>, answer: Seq<char>) -> Option<OptionView> {
    match option_by_id(options, answer) {
        Some(o) => Some(o),
        None => match parsed_usize(answer) {
            Some(i) => if i < options.len() {
                Some(options[i as int])
            } else {
                None
            },
            None => None,
        },
    }
}

/// `0) a, 1) b, ...`: the options as they are listed to the human.
pub open spec fn numbered(options: Seq<OptionView>) -> Seq<Seq<char>> {
    Seq::new(options.len(), |i: int| decimal(i as nat) + ") "@ + options[i].id)
}

pub open spec fn decision_suffix_text(question: Seq<char>, o: OptionView) -> Seq<char> {
    "\n\nYou previously asked: "@ + question + "\nThe human decided: "@ + o.label + " ("@ + o.id
        + ")\nContinue this phase, taking this decision as settled; do not ask about it again."@
}

pub open spec fn predates_workflow() -> Seq<char> {
    "this execution predates the phase-based workflow; cancel it and re-run the capability instead"@
}

/// Why a resume is refused.
pub enum Refusal {
    NotWaiting,
    Legacy,
    NoPendingQuestion,
    NotOffered,
    UnknownCapability,
}

/// Why a resume is refused, checked in this order, or `None` when it can
/// go ahead.
pub open spec fn refusal_of(e: ExecutionView, answer: Seq<char>, registry: Seq<CapabilityKind>) -> Option<Refusal> {
    if e.status != ExecutionStatus::WaitingForHuman {
        Some(Refusal::NotWaiting)
    } else if e.workflow is Legacy {
        Some(Refusal::Legacy)
    } else if e.pending_question is None {
        Some(Refusal::NoPendingQuestion)
    } else if chosen_option(e.pending_question->0.options, answer) is None {
        Some(Refusal::NotOffered)
    } else if find_capability(registry, e.capability) is None {
        Some(Refusal::UnknownCapability)
    } else {
        None
    }
}

/// The error a refused resume gives, as a kind and a message.
pub open spec fn refusal_error(r: Refusal, e: ExecutionView, answer: Seq<char>) -> (Seq<char>, Seq<char>) {
    match r {
        Refusal::NotWaiting => (
            "usage"@,
            "execution "@ + e.id + " is not waiting for human input (status: "@ + status_text(e.status) + ")"@,
        ),
        Refusal::Legacy => ("usage"@, predates_workflow()),
        Refusal::NoPendingQuestion => (
            "workspace"@,
            "execution "@ + e.id + " has no pending question on record"@,
        ),
        Refusal::NotOffered => (
            "usage"@,
            "'"@ + answer + "' is not one of the offered options for execution "@ + e.id + ": "@ + join(
                numbered(e.pending_question->0.options),
                ", "@,
            ),
        ),
        Refusal::UnknownCapability => (
            "config"@,
            "unknown capability '"@ + e.capability + "' on execution "@ + e.id,
        ),
    }
}

pub open spec fn error_parts(err: KsforgeError) -> (Seq<char>, Seq<char>) {
    match err {
        KsforgeError::Usage(m) => ("usage"@, m@),
        KsforgeError::Workspace(m) => ("workspace"@, m@),
        KsforgeError::Config(m) => ("config"@, m@),
        _ => (seq![], seq![]),
    }
}

fn find_option(options: &Vec<crate::domain::execution::DecisionOption>, answer: &str) -> (r: Option<usize>)
    ensures
        match r {
            Some(i) => i < options@.len() && chosen_option(options.deep_view(), answer@) == Some(options.deep_view()[i as int]),
            None => chosen_option(options.deep_view(), answer@) is None,
        },
{
    let ghost ov = options.deep_view();
    let mut i: usize = 0;
    proof {
        assert(ov.skip(0) =~= ov);
    }
    while i < options.len()
        invariant
            i <= options@.len(),
            ov == options.deep_view(),
            option_by_id(ov, answer@) == option_by_id(ov.skip(i as int), answer@),
        decreases options@.len() - i,
    {
        proof {
            let rest = ov.skip(i as int);
            assert(rest[0] == options@[i as int]@);
            assert(rest.drop_first() =~= ov.skip(i + 1));
        }
        if str_eq(options[i].id.as_str(), answer) {
            return Some(i);
        }
        i = i + 1;
    }
    proof {
        assert(ov.skip(i as int) =~= Seq::<OptionView>::empty());
    }
    match parse_usize(answer) {
        Some(n) => {
            if n < options.len() {
                Some(n)
            } else {
                None
            }
        },
        None => None,
    }
}

fn numbered_list(options: &Vec<crate::domain::execution::DecisionOption>) -> (r: String)
    ensures
        r@ == join(numbered(options.deep_view()), ", "@),
{
    let ghost ov = options.deep_view();
    let mut items: Vec<String> = Vec::new();
    let mut i: usize = 0;
    while i < options.len()
        invariant
            i <= options@.len(),
            ov == options.deep_view(),
            crate::text::views(items@) == numbered(ov).take(i as int),
        decreases options@.len() - i,
    {
        let mut item = decimal_string(i as u64);
        push_str(&mut item, ") ");
        push_str(&mut item, options[i].id.as_str());
        let ghost before = items@;
        items.push(item);
        proof {
            assert(crate::text::views(items@) =~= crate::text::views(before).push(item@));
            assert(numbered(ov).take(i + 1) =~= numbered(ov).take(i as int).push(numbered(ov)[i as int]));
        }
        i = i + 1;
    }
    proof {
        assert(numbered(ov).take(i as int) =~= numbered(ov));
    }
    crate::text::join_strings(items.as_slice(), ", ")
}

/// Applies the human's answer to a paused execution, or says why it
/// cannot be. On success its open question closes (the decision is logged and the
/// execution runs again) and the run resumes at the phase it paused at,
/// with the decision restated; a refusal leaves the execution unchanged.
pub fn prepare_resume(
    execution: &mut Execution,
    answer: &str,
    decided_by: Option<String>,
    registry: &CapabilityRegistry,
) -> (r: Result<Resumption, KsforgeError>)
    ensures
        match refusal_of(old(execution)@, answer@, registry@) {
            Some(why) => r matches Err(err) && error_parts(err) == refusal_error(why, old(execution)@, answer@)
                && final(execution)@ == old(execution)@,
            None => {
                let gate = old(execution)@.pending_question->0;
                let o = chosen_option(gate.options, answer@)->0;
                &&& r matches Ok(res)
                &&& Some(res.capability) == find_capability(registry@, old(execution)@.capability)
                &&& res.decision_suffix@ == decision_suffix_text(gate.question, o)
                &&& opt_str(res.session_id) == old(execution)@.agent_session_id
                &&& {
                    let m = final(execution)@.messages;
                    let n = m.len();
                    n >= 2 && final(execution)@ == decided(
                        old(execution)@,
                        o.id,
                        opt_str(decided_by),
                        crate::domain::execution::event_at(m[n - 2]),
                        crate::domain::execution::event_at(m[n - 1]),
                        final(execution)@.updated_at,
                    )
                }
            },
        },
        wf(old(execution)@) ==> wf(final(execution)@),
{
    if execution.status != ExecutionStatus::WaitingForHuman {
        let mut m = copy_str("execution ");
        push_str(&mut m, execution.id.0.as_str());
        push_str(&mut m, " is not waiting for human input (status: ");
        push_str(&mut m, execution.status.as_str());
        push_str(&mut m, ")");
        return Err(KsforgeError::Usage(m));
    }
    if execution.workflow.is_legacy() {
        return Err(KsforgeError::Usage(copy_str(
            "this execution predates the phase-based workflow; cancel it and re-run the capability instead",
        )));
    }
    let (option_id, label, question) = match &execution.pending_question {
        None => {
            let mut m = copy_str("execution ");
            push_str(&mut m, execution.id.0.as_str());
            push_str(&mut m, " has no pending question on record");
            return Err(KsforgeError::Workspace(m));
        },
        Some(gate) => match find_option(&gate.options, answer) {
            Some(i) => {
                proof {
                    assert(gate.options.deep_view()[i as int] == gate.options@[i as int]@);
                }
                (gate.options[i].id.clone(), gate.options[i].label.clone(), gate.question.clone())
            },
            None => {
                let mut m = copy_str("'");
                push_str(&mut m, answer);
                push_str(&mut m, "' is not one of the offered options for execution ");
                push_str(&mut m, execution.id.0.as_str());
                push_str(&mut m, ": ");
                let list = numbered_list(&gate.options);
                push_str(&mut m, list.as_str());
                return Err(KsforgeError::Usage(m));
            },
        },
    };
    let capability = match registry.get(execution.capability.as_str()) {
        Some(k) => k,
        None => {
            let mut m = copy_str("unknown capability '");
            push_str(&mut m, execution.capability.as_str());
            push_str(&mut m, "' on execution ");
            push_str(&mut m, execution.id.0.as_str());
            return Err(KsforgeError::Config(m));
        },
    };
    let decision = HumanDecision {
        execution_id: execution.id.clone(),
        option: option_id.clone(),
        decided_by,
    };
    execution.apply_decision(&decision);
    let mut suffix = copy_str("\n\nYou previously asked: ");
    push_str(&mut suffix, question.as_str());
    push_str(&mut suffix, "\nThe human decided: ");
    push_str(&mut suffix, label.as_str());
    push_str(&mut suffix, " (");
    push_str(&mut suffix, option_id.as_str());
    push_str(&mut suffix, ")\nContinue this phase, taking this decision as settled; do not ask about it again.");
    Ok(Resumption {
        capability,
        decision_suffix: suffix,
        session_id: crate::domain::execution::clone_opt_string(&execution.agent_session_id),
    })
}


// ---------------------------------------------------------------------
// Laws
// ---------------------------------------------------------------------

proof fn lemma_option_by_id_finds(options: Seq<OptionView>, j: int)
    requires
        0 <= j < options.len(),
        forall|k: int| 0 <= k < j ==> #[trigger] options[k].id != options[j].id,
    ensures
        option_by_id(options, options[j].id) == Some(options[j]),
    decreases j,
{
    if j > 0 {
        let rest = options.drop_first();
        assert forall|k: int| 0 <= k < j - 1 implies #[trigger] rest[k].id != rest[j - 1].id by {
            assert(rest[k] == options[k + 1] && rest[j - 1] == options[j]);
        }
        lemma_option_by_id_finds(rest, j - 1);
        assert(rest[j - 1] == options[j]);
        assert(options[0].id != options[j].id);
    }
}

/// An answer that is some option's id picks the first option with that
/// id, whatever number that id may look like.
pub proof fn lemma_an_id_picks_its_option(options: Seq<OptionView>, j: int)
    requires
        0 <= j < options.len(),
        forall|k: int| 0 <= k < j ==> #[trigger] options[k].id != options[j].id,
    ensures
        chosen_option(options, options[j].id) == Some(options[j]),
{
    lemma_option_by_id_finds(options, j);
}

proof fn lemma_no_id_matches(options: Seq<OptionView>, id: Seq<char>)
    requires
        forall|k: int| 0 <= k < options.len() ==> #[trigger] options[k].id != id,
    ensures
        option_by_id(options, id) is None,
    decreases options.len(),
{
    if options.len() > 0 {
        let rest = options.drop_first();
        assert forall|k: int| 0 <= k < rest.len() implies #[trigger] rest[k].id != id by {
            assert(rest[k] == options[k + 1]);
        }
        lemma_no_id_matches(rest, id);
        assert(options[0].id != id);
    }
}

/// An answer that is no option's id but is the number an option is listed
/// under (`0) ...`, `1) ...`) picks the option at that position; a number
/// past the list, with no option of that id, picks nothing.
pub proof fn lemma_a_listed_number_picks_its_option(options: Seq<OptionView>, n: nat)
    requires
        n <= usize::MAX,
        forall|k: int| 0 <= k < options.len() ==> #[trigger] options[k].id != decimal(n),
    ensures
        n < options.len() ==> chosen_option(options, decimal(n)) == Some(options[n as int]),
        n >= options.len() ==> chosen_option(options, decimal(n)) is None,
{
    lemma_no_id_matches(options, decimal(n));
    lemma_decimal_parses_back(n);
}

} // verus!
