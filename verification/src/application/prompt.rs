//! Where prompt text is assembled: one `(system_prompt, user_prompt)`
//! builder per agent phase. The system prompt carries policy the change
//! request cannot override; the user prompt carries the change request
//! and, from LOCATE on, the earlier phases' own structured output restated
//! explicitly, so correctness never rests on the agent's memory of
//! earlier turns. "Workspace:" always states the directory the agent
//! actually runs in.
use vstd::prelude::*;

use crate::domain::capability::{capability_id, capability_supports_human, CapabilityKind};
use crate::domain::constraint::Constraint;
use crate::domain::request::ImplementationRequest;
use crate::domain::workflow::{phase_text, ActionResult, LocatedContext, Phase, Understanding};
use crate::text::{copy_str, join, join_strings, push_str, views};

verus! {

/// The fixed prompt documents: the core system prompt, one document per
/// agent phase, the human-in-the-loop protocol, the output-format
/// reminder, and each capability's own fragment.
pub struct PromptTexts {
    pub core: String,
    pub understand: String,
    pub locate: String,
    pub act: String,
    pub validate: String,
    pub human_in_the_loop: String,
    pub schema_reminder: String,
    pub implement: String,
    pub review: String,
    pub fix: String,
    pub txt2img: String,
    pub img2img: String,
    pub test: String,
}

/// `explain` carries its fragment inline rather than in a document.
pub open spec fn explain_fragment() -> Seq<char> {
    "The story names something to explain (a file, a module, a behavior). Read what is necessary to answer accurately and put a clear, concrete explanation in the summary field — cite actual file paths and symbols, not generic descriptions."@
}

/// The capability-specific instructions appended in the ACT phase.
pub open spec fn fragment_of(t: PromptTexts, k: CapabilityKind) -> Seq<char> {
    match k {
        CapabilityKind::Implement => t.implement@,
        CapabilityKind::Review => t.review@,
        CapabilityKind::Fix => t.fix@,
        CapabilityKind::Explain => explain_fragment(),
        CapabilityKind::Txt2Img => t.txt2img@,
        CapabilityKind::Img2Img => t.img2img@,
        CapabilityKind::Test => t.test@,
    }
}

pub fn prompt_fragment(t: &PromptTexts, k: CapabilityKind) -> (r: String)
    ensures
        r@ == fragment_of(*t, k),
{
    match k {
        CapabilityKind::Implement => t.implement.clone(),
        CapabilityKind::Review => t.review.clone(),
        CapabilityKind::Fix => t.fix.clone(),
        CapabilityKind::Explain => copy_str(
            "The story names something to explain (a file, a module, a behavior). Read what is necessary to answer accurately and put a clear, concrete explanation in the summary field — cite actual file paths and symbols, not generic descriptions.",
        ),
        CapabilityKind::Txt2Img => t.txt2img.clone(),
        CapabilityKind::Img2Img => t.img2img.clone(),
        CapabilityKind::Test => t.test.clone(),
    }
}

/// The core prompt, then the phase header and the phase's own document.
pub open spec fn core_and_phase(t: PromptTexts, phase: Phase, phase_prompt: Seq<char>, k: CapabilityKind) -> Seq<char> {
    t.core@ + "\n\n---\n\n"@ + "Phase: "@ + phase_text(phase) + "\nCapability: "@ + capability_id(k)
        + "\n\n"@ + phase_prompt + "\n\n"@
}

/// One `- id: description` line per constraint.
pub open spec fn constraint_lines(cs: Seq<(Seq<char>, Seq<char>)>) -> Seq<char>
    decreases cs.len(),
{
    if cs.len() == 0 {
        seq![]
    } else {
        constraint_lines(cs.drop_last()) + "- "@ + cs.last().0 + ": "@ + cs.last().1 + "\n"@
    }
}

/// The constraints (when there are any), the human-in-the-loop protocol
/// (only for a capability that may pause on a decision), and the
/// output-format reminder.
pub open spec fn common_tail(t: PromptTexts, k: CapabilityKind, cs: Seq<(Seq<char>, Seq<char>)>) -> Seq<char> {
    (if cs.len() > 0 { "Constraints:\n"@ + constraint_lines(cs) + "\n"@ } else { seq![] })
        + (if capability_supports_human(k) { "---\n\n"@ + t.human_in_the_loop@ + "\n"@ } else { seq![] })
        + "---\n\n"@ + t.schema_reminder@
}

/// The items joined with `, `, or the label in parentheses when there are
/// none.
pub open spec fn join_or_none_spec(items: Seq<Seq<char>>, none_label: Seq<char>) -> Seq<char> {
    if items.len() == 0 {
        "("@ + none_label + ")"@
    } else {
        join(items, ", "@)
    }
}

pub open spec fn request_head(r: ImplementationRequest, working_dir: Seq<char>) -> Seq<char> {
    "Change request:\n"@ + r.change_request@ + "\n\nWorkspace: "@ + working_dir
}

pub open spec fn understand_prompts(t: PromptTexts, k: CapabilityKind, r: ImplementationRequest, working_dir: Seq<char>) -> (Seq<char>, Seq<char>) {
    (
        core_and_phase(t, Phase::Understand, t.understand@, k) + common_tail(t, k, r.constraints.deep_view()),
        request_head(r, working_dir) + "\n"@,
    )
}

pub open spec fn locate_prompts(
    t: PromptTexts,
    k: CapabilityKind,
    r: ImplementationRequest,
    working_dir: Seq<char>,
    u: Understanding,
) -> (Seq<char>, Seq<char>) {
    (
        core_and_phase(t, Phase::Locate, t.locate@, k) + common_tail(t, k, r.constraints.deep_view()),
        request_head(r, working_dir) + "\n\nYour understanding from the UNDERSTAND phase:\n"@ + u.summary@
            + "\nScope: "@ + join_or_none_spec(u.scope.deep_view(), "none named"@) + "\n"@,
    )
}

pub open spec fn act_prompts(
    t: PromptTexts,
    k: CapabilityKind,
    r: ImplementationRequest,
    working_dir: Seq<char>,
    u: Understanding,
    l: LocatedContext,
) -> (Seq<char>, Seq<char>) {
    (
        core_and_phase(t, Phase::Act, t.act@, k) + "---\n\n"@ + fragment_of(t, k) + "\n\n"@ + common_tail(
            t,
            k,
            r.constraints.deep_view(),
        ),
        request_head(r, working_dir) + "\n\nYour understanding from the UNDERSTAND phase:\n"@ + u.summary@
            + "\n\nWhat the LOCATE phase found:\n- Relevant files: "@ + join_or_none_spec(
            l.relevant_files.deep_view(),
            "none found"@,
        ) + "\n- Existing abstractions to reuse: "@ + join_or_none_spec(
            l.existing_abstractions.deep_view(),
            "none found"@,
        ) + "\n- Existing tests: "@ + join_or_none_spec(l.existing_tests.deep_view(), "none found"@)
            + "\n- Conventions: "@ + join_or_none_spec(l.conventions.deep_view(), "none found"@) + "\n"@,
    )
}

/// VALIDATE reviews ACT's result rather than attempting the change in the
/// capability's voice, so it gets no capability fragment.
pub open spec fn validate_prompts(
    t: PromptTexts,
    k: CapabilityKind,
    r: ImplementationRequest,
    working_dir: Seq<char>,
    u: Understanding,
    a: ActionResult,
) -> (Seq<char>, Seq<char>) {
    (
        core_and_phase(t, Phase::Validate, t.validate@, k) + common_tail(t, k, r.constraints.deep_view()),
        request_head(r, working_dir) + "\n\nYour understanding from the UNDERSTAND phase:\n"@ + u.summary@
            + "\n\nWhat the ACT phase changed:\n- Files: "@ + join_or_none_spec(
            a.changed_files.deep_view(),
            "no files changed"@,
        ) + "\n- Its own summary: "@ + a.summary@ + "\n- Its own completed list: "@ + join_or_none_spec(
            a.completed.deep_view(),
            "none reported"@,
        ) + "\n"@,
    )
}

fn join_or_none(items: &Vec<String>, none_label: &str) -> (r: String)
    ensures
        r@ == join_or_none_spec(items.deep_view(), none_label@),
{
    proof {
        assert(views(items@) =~= items.deep_view());
    }
    if items.len() == 0 {
        let mut s = copy_str("(");
        push_str(&mut s, none_label);
        push_str(&mut s, ")");
        s
    } else {
        join_strings(items.as_slice(), ", ")
    }
}

fn push_core_and_phase(s: &mut String, t: &PromptTexts, phase: Phase, phase_prompt: &str, k: CapabilityKind)
    ensures
        final(s)@ == old(s)@ + core_and_phase(*t, phase, phase_prompt@, k),
{
    let ghost start = s@;
    push_str(s, t.core.as_str());
    push_str(s, "\n\n---\n\n");
    push_str(s, "Phase: ");
    push_str(s, phase.as_str());
    push_str(s, "\nCapability: ");
    push_str(s, k.id());
    push_str(s, "\n\n");
    push_str(s, phase_prompt);
    push_str(s, "\n\n");
    proof {
        assert(s@ =~= start + core_and_phase(*t, phase, phase_prompt@, k));
    }
}

fn push_common_tail(s: &mut String, t: &PromptTexts, k: CapabilityKind, constraints: &Vec<Constraint>)
    ensures
        final(s)@ == old(s)@ + common_tail(*t, k, constraints.deep_view()),
{
    let ghost start = s@;
    let ghost cs = constraints.deep_view();
    if constraints.len() > 0 {
        push_str(s, "Constraints:\n");
        let ghost base = s@;
        let mut i: usize = 0;
        while i < constraints.len()
            invariant
                i <= constraints@.len(),
                cs == constraints.deep_view(),
                s@ == base + constraint_lines(cs.take(i as int)),
            decreases constraints@.len() - i,
        {
            push_str(s, "- ");
            push_str(s, constraints[i].id.as_str());
            push_str(s, ": ");
            push_str(s, constraints[i].description.as_str());
            push_str(s, "\n");
            proof {
                assert(cs.take(i + 1).drop_last() =~= cs.take(i as int));
                assert(cs.take(i + 1).last() == constraints@[i as int]@);
            }
            i = i + 1;
        }
        push_str(s, "\n");
        proof {
            assert(cs.take(i as int) =~= cs);
        }
    }
    let ghost mid = s@;
    if k.supports_human_interaction() {
        push_str(s, "---\n\n");
        push_str(s, t.human_in_the_loop.as_str());
        push_str(s, "\n");
    }
    let ghost mid2 = s@;
    push_str(s, "---\n\n");
    push_str(s, t.schema_reminder.as_str());
    proof {
        if cs.len() > 0 {
            assert(mid =~= start + ("Constraints:\n"@ + constraint_lines(cs) + "\n"@));
        } else {
            assert(mid =~= start + Seq::<char>::empty());
        }
        if capability_supports_human(k) {
            assert(mid2 =~= mid + ("---\n\n"@ + t.human_in_the_loop@ + "\n"@));
        } else {
            assert(mid2 =~= mid + Seq::<char>::empty());
        }
        assert(s@ =~= start + common_tail(*t, k, cs));
    }
}

fn push_request_head(s: &mut String, request: &ImplementationRequest, working_dir: &str)
    ensures
        final(s)@ == old(s)@ + request_head(*request, working_dir@),
{
    let ghost start = s@;
    push_str(s, "Change request:\n");
    push_str(s, request.change_request.text.as_str());
    push_str(s, "\n\nWorkspace: ");
    push_str(s, working_dir);
    proof {
        assert(s@ =~= start + request_head(*request, working_dir@));
    }
}

pub fn for_understand(t: &PromptTexts, k: CapabilityKind, request: &ImplementationRequest, working_dir: &str) -> (r: (String, String))
    ensures
        (r.0@, r.1@) == understand_prompts(*t, k, *request, working_dir@),
{
    let mut system_prompt = String::new();
    push_core_and_phase(&mut system_prompt, t, Phase::Understand, t.understand.as_str(), k);
    push_common_tail(&mut system_prompt, t, k, &request.constraints);
    let mut user_prompt = String::new();
    push_request_head(&mut user_prompt, request, working_dir);
    push_str(&mut user_prompt, "\n");
    proof {
        assert(system_prompt@ =~= understand_prompts(*t, k, *request, working_dir@).0);
        assert(user_prompt@ =~= understand_prompts(*t, k, *request, working_dir@).1);
    }
    (system_prompt, user_prompt)
}

pub fn for_locate(
    t: &PromptTexts,
    k: CapabilityKind,
    request: &ImplementationRequest,
    working_dir: &str,
    understanding: &Understanding,
) -> (r: (String, String))
    ensures
        (r.0@, r.1@) == locate_prompts(*t, k, *request, working_dir@, *understanding),
{
    let mut system_prompt = String::new();
    push_core_and_phase(&mut system_prompt, t, Phase::Locate, t.locate.as_str(), k);
    push_common_tail(&mut system_prompt, t, k, &request.constraints);
    let mut user_prompt = String::new();
    push_request_head(&mut user_prompt, request, working_dir);
    push_str(&mut user_prompt, "\n\nYour understanding from the UNDERSTAND phase:\n");
    push_str(&mut user_prompt, understanding.summary.as_str());
    push_str(&mut user_prompt, "\nScope: ");
    let scope = join_or_none(&understanding.scope, "none named");
    push_str(&mut user_prompt, scope.as_str());
    push_str(&mut user_prompt, "\n");
    proof {
        assert(system_prompt@ =~= locate_prompts(*t, k, *request, working_dir@, *understanding).0);
        assert(user_prompt@ =~= locate_prompts(*t, k, *request, working_dir@, *understanding).1);
    }
    (system_prompt, user_prompt)
}

pub fn for_act(
    t: &PromptTexts,
    k: CapabilityKind,
    request: &ImplementationRequest,
    working_dir: &str,
    understanding: &Understanding,
    located: &LocatedContext,
) -> (r: (String, String))
    ensures
        (r.0@, r.1@) == act_prompts(*t, k, *request, working_dir@, *understanding, *located),
{
    let mut system_prompt = String::new();
    push_core_and_phase(&mut system_prompt, t, Phase::Act, t.act.as_str(), k);
    push_str(&mut system_prompt, "---\n\n");
    let fragment = prompt_fragment(t, k);
    push_str(&mut system_prompt, fragment.as_str());
    push_str(&mut system_prompt, "\n\n");
    push_common_tail(&mut system_prompt, t, k, &request.constraints);
    let mut user_prompt = String::new();
    push_request_head(&mut user_prompt, request, working_dir);
    push_str(&mut user_prompt, "\n\nYour understanding from the UNDERSTAND phase:\n");
    push_str(&mut user_prompt, understanding.summary.as_str());
    push_str(&mut user_prompt, "\n\nWhat the LOCATE phase found:\n- Relevant files: ");
    let a = join_or_none(&located.relevant_files, "none found");
    push_str(&mut user_prompt, a.as_str());
    push_str(&mut user_prompt, "\n- Existing abstractions to reuse: ");
    let b = join_or_none(&located.existing_abstractions, "none found");
    push_str(&mut user_prompt, b.as_str());
    push_str(&mut user_prompt, "\n- Existing tests: ");
    let c = join_or_none(&located.existing_tests, "none found");
    push_str(&mut user_prompt, c.as_str());
    push_str(&mut user_prompt, "\n- Conventions: ");
    let d = join_or_none(&located.conventions, "none found");
    push_str(&mut user_prompt, d.as_str());
    push_str(&mut user_prompt, "\n");
    proof {
        assert(system_prompt@ =~= act_prompts(*t, k, *request, working_dir@, *understanding, *located).0);
        assert(user_prompt@ =~= act_prompts(*t, k, *request, working_dir@, *understanding, *located).1);
    }
    (system_prompt, user_prompt)
}

pub fn for_validate(
    t: &PromptTexts,
    k: CapabilityKind,
    request: &ImplementationRequest,
    working_dir: &str,
    understanding: &Understanding,
    action: &ActionResult,
) -> (r: (String, String))
    ensures
        (r.0@, r.1@) == validate_prompts(*t, k, *request, working_dir@, *understanding, *action),
{
    let mut system_prompt = String::new();
    push_core_and_phase(&mut system_prompt, t, Phase::Validate, t.validate.as_str(), k);
    push_common_tail(&mut system_prompt, t, k, &request.constraints);
    let mut user_prompt = String::new();
    push_request_head(&mut user_prompt, request, working_dir);
    push_str(&mut user_prompt, "\n\nYour understanding from the UNDERSTAND phase:\n");
    push_str(&mut user_prompt, understanding.summary.as_str());
    push_str(&mut user_prompt, "\n\nWhat the ACT phase changed:\n- Files: ");
    let a = join_or_none(&action.changed_files, "no files changed");
    push_str(&mut user_prompt, a.as_str());
    push_str(&mut user_prompt, "\n- Its own summary: ");
    push_str(&mut user_prompt, action.summary.as_str());
    push_str(&mut user_prompt, "\n- Its own completed list: ");
    let b = join_or_none(&action.completed, "none reported");
    push_str(&mut user_prompt, b.as_str());
    push_str(&mut user_prompt, "\n");
    proof {
        assert(system_prompt@ =~= validate_prompts(*t, k, *request, working_dir@, *understanding, *action).0);
        assert(user_prompt@ =~= validate_prompts(*t, k, *request, working_dir@, *understanding, *action).1);
    }
    (system_prompt, user_prompt)
}

} // verus!
