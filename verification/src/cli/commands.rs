//! What each command decides: the model it passes on, the exit code it
//! ends with, where its change request comes from, and the checks a pull
//! request comment must pass before anything acts on it. Loading,
//! saving, spawning and printing are the caller's part.
use vstd::prelude::*;

use crate::cli::args::{CancelArgs, Engine, OutputFormat, StatusArgs};
use crate::cli::output::{render_human, transcript};
use crate::domain::capability::{
    capability_description, capability_id, CapabilityKind, CapabilityRegistry,
};
use crate::domain::change_request::ChangeRequest;
use crate::domain::error::{KsforgeError, Result};
use crate::domain::execution::{
    opt_str, status_text, DecisionOption, EventView, Execution, ExecutionEvent, ExecutionStatus,
    ExecutionView, OptionView,
};
use crate::github::decision::{
    first_choose, follow_up_from, parse_choose_command, parse_follow_up_command, FollowUpCommand,
};
use crate::github::pull_request::PullRequestOutcome;
use crate::text::{chars_of, copy_str, decimal, decimal_string, join, lines, push_str, str_eq, trim, views};

verus! {

/// `--model` defaults to the `sonnet` alias for the primary agent
/// engine only; Codex keeps its own configured default when none is given.
pub open spec fn model_for(engine: Engine, model: Option<Seq<char>>) -> Option<Seq<char>> {
    match engine {
        Engine::ClaudeCode => match model {
            Some(m) => Some(m),
            None => Some("sonnet"@),
        },
        Engine::Codex => model,
    }
}

pub fn resolve_model(engine: Engine, model: Option<String>) -> (r: Option<String>)
    ensures
        opt_str(r) == model_for(engine, opt_str(model)),
{
    match engine {
        Engine::ClaudeCode => match model {
            Some(m) => Some(m),
            None => {
                let s = copy_str("sonnet");
                proof {
                    reveal_strlit("sonnet");
                }
                Some(s)
            },
        },
        Engine::Codex => model,
    }
}

/// Whether a validation failure was ever recorded.
pub open spec fn validation_failed_in(messages: Seq<EventView>) -> bool {
    exists|i: int| 0 <= i < messages.len() && #[trigger] messages[i] is ValidationFailed
}

/// The process exit code an execution ends a command with: 0 completed,
/// 6 waiting for a human, 4 failed validation, 3 failed otherwise, 1
/// cancelled or still running.
pub open spec fn exit_code_of_execution(e: ExecutionView) -> i32 {
    match e.status {
        ExecutionStatus::Completed => 0,
        ExecutionStatus::WaitingForHuman => 6,
        ExecutionStatus::Failed => if validation_failed_in(e.messages) {
            4
        } else {
            3
        },
        ExecutionStatus::Cancelled => 1,
        ExecutionStatus::Running => 1,
    }
}

pub fn exit_code_for(execution: &Execution) -> (r: i32)
    ensures
        r == exit_code_of_execution(execution@),
{
    match execution.status {
        ExecutionStatus::Completed => 0,
        ExecutionStatus::WaitingForHuman => 6,
        ExecutionStatus::Failed => {
            let ghost ms = execution@.messages;
            let mut i: usize = 0;
            while i < execution.messages.len()
                invariant
                    i <= execution.messages@.len(),
                    ms == execution@.messages,
                    execution.status == ExecutionStatus::Failed,
                    ms.len() == execution.messages@.len(),
                    forall|k: int| 0 <= k < i ==> !(#[trigger] ms[k] is ValidationFailed),
                decreases execution.messages@.len() - i,
            {
                let hit = match &execution.messages[i] {
                    ExecutionEvent::ValidationFailed { .. } => true,
                    _ => false,
                };
                proof {
                    assert(ms[i as int] == execution.messages@[i as int].deep_view());
                }
                if hit {
                    proof {
                        assert(ms[i as int] is ValidationFailed);
                    }
                    return 4;
                }
                i = i + 1;
            }
            proof {
                if validation_failed_in(ms) {
                    let w = choose|w: int| 0 <= w < ms.len() && #[trigger] ms[w] is ValidationFailed;
                    assert(!(ms[w] is ValidationFailed));
                }
            }
            3
        },
        ExecutionStatus::Cancelled => 1,
        ExecutionStatus::Running => 1,
    }
}

/// What `status <id>` shows of the execution it loaded, and exits with:
/// the transcript for text output (`None` for JSON output, which the
/// caller writes), and the execution's exit code.
pub fn status(args: &StatusArgs, execution: &Execution) -> (r: (Option<String>, i32))
    ensures
        r.1 == exit_code_of_execution(execution@),
        args.format == OutputFormat::Text ==> (r.0 matches Some(t) && t@ == transcript(execution@)),
        args.format == OutputFormat::Json ==> r.0 is None,
{
    let text = match args.format {
        OutputFormat::Text => Some(render_human(execution)),
        OutputFormat::Json => None,
    };
    (text, exit_code_for(execution))
}

/// `cancel <id>` on the execution it loaded: the execution is cancelled
/// with the given reason (an operator's decision, not a failure), then
/// shown and exited with as `status` would.
pub fn cancel(args: &CancelArgs, execution: &mut Execution) -> (r: (Option<String>, i32))
    ensures
        final(execution)@ == crate::domain::execution::cancelled(
            old(execution)@,
            args.reason@,
            crate::domain::execution::event_at(final(execution)@.messages.last()),
            final(execution)@.updated_at,
        ),
        r.1 == exit_code_of_execution(final(execution)@),
        r.1 == 1,
        args.format == OutputFormat::Text ==> (r.0 matches Some(t) && t@ == transcript(final(execution)@)),
        args.format == OutputFormat::Json ==> r.0 is None,
{
    execution.cancel(args.reason.as_str());
    let text = match args.format {
        OutputFormat::Text => Some(render_human(execution)),
        OutputFormat::Json => None,
    };
    (text, exit_code_for(execution))
}

/// `--change @<path>` names a file to read the change request from.
pub open spec fn names_file(change: Seq<char>) -> bool {
    change.len() > 0 && change[0] == '@'
}

pub open spec fn missing_change_text() -> Seq<char> {
    "--change is required: the change request text, or @<path> to read it from a file"@
}

/// The file `--change` names, when it names one (`@<path>`).
pub fn change_file(change: &str) -> (r: Option<String>)
    ensures
        match r {
            Some(p) => names_file(change@) && p@ == change@.skip(1),
            None => !names_file(change@),
        },
{
    let v = chars_of(change);
    if v.len() > 0 && v[0] == '@' {
        let rest = crate::text::slice_range(v.as_slice(), 1, v.len());
        proof {
            assert(rest@ =~= change@.skip(1));
        }
        Some(crate::text::string_from_chars(rest.as_slice()))
    } else {
        None
    }
}

/// A command's change request: the `--change` text, or, for `@<path>`,
/// the file's text as reading it gave it; no `--change` at all is a usage
/// error.
pub fn load_change_request(change: Option<String>, read: Option<std::result::Result<String, String>>) -> (r:
    Result<ChangeRequest>)
    requires
        (change matches Some(c) && names_file(c@)) ==> read is Some,
    ensures
        match change {
            None => r matches Err(KsforgeError::Usage(m)) && m@ == missing_change_text(),
            Some(c) => if names_file(c@) {
                match read {
                    Some(Err(e)) => r matches Err(KsforgeError::Usage(m)) && m@
                        == "failed to read change request file "@ + c@.skip(1) + ": "@ + e@,
                    Some(Ok(text)) => (r is Err <==> trim(text@).len() == 0) && (r matches Ok(cr) ==> cr@
                        == text@),
                    None => false,
                }
            } else {
                (r is Err <==> trim(c@).len() == 0) && (r matches Ok(cr) ==> cr@ == c@) && (r matches Err(
                    e,
                ) ==> e is Usage)
            },
        },
{
    match change {
        None => {
            let m = copy_str("--change is required: the change request text, or @<path> to read it from a file");
            Err(KsforgeError::Usage(m))
        },
        Some(c) => match change_file(c.as_str()) {
            Some(path) => match read {
                Some(read) => ChangeRequest::from_file(path.as_str(), read),
                None => {
                    proof {
                        assert(false);
                    }
                    Err(KsforgeError::Usage(path))
                },
            },
            None => ChangeRequest::from_text(c.as_str()),
        },
    }
}

/// `Running <capability>...`, with ` (dry run)` before the dots on a dry run.
pub open spec fn running_text(capability: Seq<char>, dry_run: bool) -> Seq<char> {
    "Running "@ + capability + (if dry_run { " (dry run)"@ } else { seq![] }) + "..."@
}

pub fn running_notice(capability_id: &str, dry_run: bool) -> (r: String)
    ensures
        r@ == running_text(capability_id@, dry_run),
{
    let mut s = copy_str("Running ");
    push_str(&mut s, capability_id);
    if dry_run {
        push_str(&mut s, " (dry run)");
    }
    push_str(&mut s, "...");
    proof {
        reveal_strlit("Running ");
        reveal_strlit(" (dry run)");
        reveal_strlit("...");
    }
    s
}

pub fn resuming_notice(execution_id: &str) -> (r: String)
    ensures
        r@ == "Resuming "@ + execution_id@ + "..."@,
{
    let mut s = copy_str("Resuming ");
    push_str(&mut s, execution_id);
    push_str(&mut s, "...");
    s
}

pub fn posted_notice(execution_id: &str, pr: u64) -> (r: String)
    ensures
        r@ == "Posted report for "@ + execution_id@ + " to PR #"@ + decimal(pr as nat),
{
    let mut s = copy_str("Posted report for ");
    push_str(&mut s, execution_id);
    push_str(&mut s, " to PR #");
    let n = decimal_string(pr);
    push_str(&mut s, n.as_str());
    s
}

/// One row of the capability listing: two spaces, the id padded to ten
/// columns, a space, the description.
pub open spec fn capability_row(k: CapabilityKind) -> Seq<char> {
    "  "@ + crate::cli::output::pad(capability_id(k), 10) + " "@ + capability_description(k) + "\n"@
}

pub open spec fn capability_rows(ks: Seq<CapabilityKind>) -> Seq<char>
    decreases ks.len(),
{
    if ks.len() == 0 {
        seq![]
    } else {
        capability_rows(ks.drop_last()) + capability_row(ks.last())
    }
}

/// `Capabilities:` and one row per registered capability, in order.
pub fn capabilities_text(registry: &CapabilityRegistry) -> (r: String)
    ensures
        r@ == "Capabilities:\n"@ + capability_rows(registry@),
{
    let ks = registry.list();
    let mut s = copy_str("Capabilities:\n");
    let mut i: usize = 0;
    while i < ks.len()
        invariant
            i <= ks@.len(),
            ks@ == registry@,
            s@ == "Capabilities:\n"@ + capability_rows(ks@.take(i as int)),
        decreases ks@.len() - i,
    {
        let k = ks[i];
        let ghost before = s@;
        push_str(&mut s, "  ");
        crate::cli::output::push_padded(&mut s, k.id(), 10);
        push_str(&mut s, " ");
        push_str(&mut s, k.description());
        push_str(&mut s, "\n");
        proof {
            assert(ks@.take(i + 1).drop_last() =~= ks@.take(i as int));
            assert(s@ =~= before + capability_row(k));
        }
        i = i + 1;
    }
    proof {
        assert(ks@.take(ks@.len() as int) =~= ks@);
    }
    s
}

/// What a pull request comment asks of ksforge.
pub enum CommentCommand {
    /// `/ksforge choose <option>`: answer an execution's open gate.
    Choose(String),
    /// `/ksforge implement|fix <change-request>`: a new run on the branch.
    FollowUp(FollowUpCommand),
}

pub open spec fn unrecognized_comment_text() -> Seq<char> {
    "comment does not contain a recognized `/ksforge` command (`choose <option>`, `implement <change-request>`, or `fix <change-request>`)"@
}

/// A `choose` line wins over a follow-up; a comment with neither is a
/// usage error.
pub fn classify_comment(body: &str) -> (r: Result<CommentCommand>)
    ensures
        match first_choose(lines(body@)) {
            Some(o) => r matches Ok(CommentCommand::Choose(c)) && c@ == o,
            None => match follow_up_from(lines(body@)) {
                Some((cap, text)) => r matches Ok(CommentCommand::FollowUp(f)) && f.capability@ == cap
                    && f.change_request@ == text,
                None => r matches Err(KsforgeError::Usage(m)) && m@ == unrecognized_comment_text(),
            },
        },
{
    match parse_choose_command(body) {
        Some(option) => Ok(CommentCommand::Choose(option)),
        None => match parse_follow_up_command(body) {
            Some(f) => Ok(CommentCommand::FollowUp(f)),
            None => {
                let m = copy_str(
                    "comment does not contain a recognized `/ksforge` command (`choose <option>`, `implement <change-request>`, or `fix <change-request>`)",
                );
                Err(KsforgeError::Usage(m))
            },
        },
    }
}

/// `/ksforge choose` answers one execution, so it needs its id.
pub fn choose_execution_id(execution_id: Option<String>) -> (r: Result<String>)
    ensures
        match execution_id {
            Some(id) => r matches Ok(s) && s@ == id@,
            None => r matches Err(KsforgeError::Usage(m)) && m@ == "`/ksforge choose` requires --execution-id"@,
        },
{
    match execution_id {
        Some(id) => Ok(id),
        None => Err(KsforgeError::Usage(copy_str("`/ksforge choose` requires --execution-id"))),
    }
}

/// Refusing a commenter without permission to decide on an execution.
pub fn not_authorized_to_decide(commenter: &str, execution_id: &str) -> (r: KsforgeError)
    ensures
        r matches KsforgeError::PolicyViolation(m) && m@ == commenter@ + " is not authorized to decide on "@
            + execution_id@,
{
    let mut m = copy_str(commenter);
    push_str(&mut m, " is not authorized to decide on ");
    push_str(&mut m, execution_id);
    KsforgeError::PolicyViolation(m)
}

/// Refusing a commenter without permission to start a run by comment.
pub fn not_authorized_to_follow_up(commenter: &str, capability: &str) -> (r: KsforgeError)
    ensures
        r matches KsforgeError::PolicyViolation(m) && m@ == commenter@ + " is not authorized to trigger a "@
            + capability@ + " run via comment"@,
{
    let mut m = copy_str(commenter);
    push_str(&mut m, " is not authorized to trigger a ");
    push_str(&mut m, capability);
    push_str(&mut m, " run via comment");
    KsforgeError::PolicyViolation(m)
}

pub open spec fn option_ids(options: Seq<OptionView>) -> Seq<Seq<char>> {
    Seq::new(options.len(), |i: int| options[i].id)
}

pub open spec fn offers(options: Seq<OptionView>, option: Seq<char>) -> bool {
    exists|i: int| 0 <= i < options.len() && #[trigger] options[i].id == option
}

fn offered(options: &Vec<DecisionOption>, option: &str) -> (r: bool)
    ensures
        r == offers(options.deep_view(), option@),
{
    let ghost ov = options.deep_view();
    let mut i: usize = 0;
    while i < options.len()
        invariant
            i <= options@.len(),
            ov == options.deep_view(),
            forall|k: int| 0 <= k < i ==> #[trigger] ov[k].id != option@,
        decreases options@.len() - i,
    {
        proof {
            assert(ov[i as int] == options@[i as int]@);
        }
        if str_eq(options[i].id.as_str(), option) {
            proof {
                assert(ov[i as int].id == option@);
            }
            return true;
        }
        i = i + 1;
    }
    proof {
        if offers(ov, option@) {
            let w = choose|w: int| 0 <= w < ov.len() && #[trigger] ov[w].id == option@;
            assert(ov[w].id != option@);
        }
    }
    false
}

fn ids_joined(options: &Vec<DecisionOption>) -> (r: String)
    ensures
        r@ == join(option_ids(options.deep_view()), ", "@),
{
    let ghost ov = options.deep_view();
    let mut ids: Vec<String> = Vec::new();
    let mut i: usize = 0;
    while i < options.len()
        invariant
            i <= options@.len(),
            ov == options.deep_view(),
            views(ids@) == option_ids(ov).take(i as int),
        decreases options@.len() - i,
    {
        let ghost before = ids@;
        ids.push(copy_str(options[i].id.as_str()));
        proof {
            assert(ov[i as int] == options@[i as int]@);
            assert(views(ids@) =~= views(before).push(ov[i as int].id));
            assert(option_ids(ov).take(i + 1) =~= option_ids(ov).take(i as int).push(option_ids(ov)[i as int]));
        }
        i = i + 1;
    }
    proof {
        assert(option_ids(ov).take(options@.len() as int) =~= option_ids(ov));
    }
    crate::text::join_strings(ids.as_slice(), ", ")
}

/// Whether `option` may answer the execution named `execution_id`: it
/// must be waiting for a human, have its open gate on record, and offer
/// that option; each refusal with its own message.
pub fn check_choice(execution_id: &str, execution: &Execution, option: &str) -> (r: Result<()>)
    ensures
        execution@.status != ExecutionStatus::WaitingForHuman ==> (r matches Err(KsforgeError::Usage(m)) && m@
            == execution_id@ + " is not waiting for human input (status: "@ + status_text(execution@.status)
            + ")"@),
        execution@.status == ExecutionStatus::WaitingForHuman ==> (execution@.pending_question is None ==> (
        r matches Err(KsforgeError::Workspace(m)) && m@ == execution_id@ + " has no open gate on record"@)),
        execution@.status == ExecutionStatus::WaitingForHuman ==> (execution@.pending_question matches Some(g) ==> (
        offers(g.options, option@) ==> r is Ok)),
        execution@.status == ExecutionStatus::WaitingForHuman ==> (execution@.pending_question matches Some(g) ==> (
        !offers(g.options, option@) ==> (r matches Err(KsforgeError::Usage(m)) && m@ == "'"@ + option@
            + "' is not one of the offered options: "@ + join(option_ids(g.options), ", "@)))),
        choice_ok(execution@, option@) ==> r is Ok,
        !choice_ok(execution@, option@) ==> (r matches Err(err) && choice_refused(
            execution_id@,
            execution@,
            option@,
            err,
        )),
{
    if execution.status != ExecutionStatus::WaitingForHuman {
        let mut m = copy_str(execution_id);
        push_str(&mut m, " is not waiting for human input (status: ");
        push_str(&mut m, execution.status.as_str());
        push_str(&mut m, ")");
        return Err(KsforgeError::Usage(m));
    }
    match &execution.pending_question {
        None => {
            let mut m = copy_str(execution_id);
            push_str(&mut m, " has no open gate on record");
            Err(KsforgeError::Workspace(m))
        },
        Some(gate) => {
            if offered(&gate.options, option) {
                Ok(())
            } else {
                let mut m = copy_str("'");
                push_str(&mut m, option);
                push_str(&mut m, "' is not one of the offered options: ");
                let ids = ids_joined(&gate.options);
                push_str(&mut m, ids.as_str());
                Err(KsforgeError::Usage(m))
            }
        },
    }
}

/// A `key=value` line of the GitHub Actions step output.
pub open spec fn output_line(key: Seq<char>, value: Seq<char>) -> Seq<char> {
    key + "="@ + value + "\n"@
}

/// The delimited form a value that spans lines needs.
pub open spec fn output_block(key: Seq<char>, value: Seq<char>) -> Seq<char> {
    key + "<<KSFORGE_COMMENT_EOF\n"@ + value + "\nKSFORGE_COMMENT_EOF\n"@
}

/// What a checked `choose` comment appends to the step output.
pub fn choose_output(execution_id: &str, option: &str) -> (r: String)
    ensures
        r@ == output_line("kind"@, "choose"@) + output_line("execution-id"@, execution_id@) + output_line(
            "decision"@,
            option@,
        ),
{
    let mut s = copy_str("kind=choose\n");
    push_str(&mut s, "execution-id=");
    push_str(&mut s, execution_id);
    push_str(&mut s, "\n");
    push_str(&mut s, "decision=");
    push_str(&mut s, option);
    push_str(&mut s, "\n");
    proof {
        reveal_strlit("kind=choose\n");
        reveal_strlit("execution-id=");
        reveal_strlit("decision=");
        reveal_strlit("\n");
        reveal_strlit("kind");
        reveal_strlit("choose");
        reveal_strlit("execution-id");
        reveal_strlit("decision");
        reveal_strlit("=");
    }
    s
}

/// What a checked follow-up comment appends to the step output.
pub fn follow_up_output(command: &FollowUpCommand) -> (r: String)
    ensures
        r@ == output_line("kind"@, "follow_up"@) + output_line("capability"@, command.capability@)
            + output_block("change_request"@, command.change_request@),
{
    let mut s = copy_str("kind=follow_up\n");
    push_str(&mut s, "capability=");
    push_str(&mut s, command.capability.as_str());
    push_str(&mut s, "\n");
    push_str(&mut s, "change_request<<KSFORGE_COMMENT_EOF\n");
    push_str(&mut s, command.change_request.as_str());
    push_str(&mut s, "\nKSFORGE_COMMENT_EOF\n");
    proof {
        reveal_strlit("kind=follow_up\n");
        reveal_strlit("capability=");
        reveal_strlit("\n");
        reveal_strlit("kind");
        reveal_strlit("follow_up");
        reveal_strlit("capability");
        reveal_strlit("change_request");
        reveal_strlit("=");
        reveal_strlit("change_request<<KSFORGE_COMMENT_EOF\n");
        reveal_strlit("<<KSFORGE_COMMENT_EOF\n");
    }
    s
}

/// The execution id follow-up comments are recorded under.
pub open spec fn follow_up_scope() -> Seq<char> {
    "ksf_pr_followups"@
}

/// Whether `option` answers the execution's open gate.
pub open spec fn choice_ok(e: ExecutionView, option: Seq<char>) -> bool {
    &&& e.status == ExecutionStatus::WaitingForHuman
    &&& e.pending_question matches Some(g)
    &&& offers(g.options, option)
}

/// The error [`check_choice`] refuses `option` with.
pub open spec fn choice_refused(execution_id: Seq<char>, e: ExecutionView, option: Seq<char>, err: KsforgeError) -> bool {
    if e.status != ExecutionStatus::WaitingForHuman {
        err matches KsforgeError::Usage(m) && m@ == execution_id + " is not waiting for human input (status: "@
            + status_text(e.status) + ")"@
    } else {
        match e.pending_question {
            None => err matches KsforgeError::Workspace(m) && m@ == execution_id + " has no open gate on record"@,
            Some(g) => err matches KsforgeError::Usage(m) && m@ == "'"@ + option
                + "' is not one of the offered options: "@ + join(option_ids(g.options), ", "@),
        }
    }
}

/// What handling a pull request comment does next.
pub enum CommentAction {
    /// Ask whether this comment was already acted on, under this
    /// execution id.
    CheckProcessed(String),
    /// A duplicate delivery: nothing to do.
    AlreadyProcessed,
    /// Ask whether the commenter has write access to the repository.
    Authorize,
    /// Load this execution, to check the choice against its open gate.
    LoadExecution(String),
    /// Record the comment as acted on under `scope`, print `answer`, and
    /// append `github_output` to the step output.
    Answer { scope: String, answer: String, github_output: String },
    /// Stop with this error.
    Refuse(KsforgeError),
}

/// The order a comment is handled in: a `choose` needs an execution id;
/// then a duplicate delivery is a no-op before anything else is asked;
/// then the commenter must have write access; a `choose` must then answer
/// the execution's open gate; and only then is the comment recorded and
/// answered.
pub open spec fn comment_decided(
    command: CommentCommand,
    execution_id: Option<String>,
    commenter: Seq<char>,
    processed: Option<bool>,
    authorized: Option<bool>,
    execution: Option<Execution>,
    r: CommentAction,
) -> bool {
    match command {
        CommentCommand::Choose(option) => match execution_id {
            None => r matches CommentAction::Refuse(KsforgeError::Usage(m)) && m@
                == "`/ksforge choose` requires --execution-id"@,
            Some(id) => match processed {
                None => r matches CommentAction::CheckProcessed(s) && s@ == id@,
                Some(true) => r is AlreadyProcessed,
                Some(false) => match authorized {
                    None => r is Authorize,
                    Some(false) => r matches CommentAction::Refuse(KsforgeError::PolicyViolation(m)) && m@
                        == commenter + " is not authorized to decide on "@ + id@,
                    Some(true) => match execution {
                        None => r matches CommentAction::LoadExecution(s) && s@ == id@,
                        Some(e) => if choice_ok(e@, option@) {
                            &&& r matches CommentAction::Answer { scope, answer, github_output }
                            &&& scope@ == id@
                            &&& answer@ == option@
                            &&& github_output@ == output_line("kind"@, "choose"@) + output_line(
                                "execution-id"@,
                                id@,
                            ) + output_line("decision"@, option@)
                        } else {
                            r matches CommentAction::Refuse(err) && choice_refused(id@, e@, option@, err)
                        },
                    },
                },
            },
        },
        CommentCommand::FollowUp(f) => match processed {
            None => r matches CommentAction::CheckProcessed(s) && s@ == follow_up_scope(),
            Some(true) => r is AlreadyProcessed,
            Some(false) => match authorized {
                None => r is Authorize,
                Some(false) => r matches CommentAction::Refuse(KsforgeError::PolicyViolation(m)) && m@
                    == commenter + " is not authorized to trigger a "@ + f.capability@ + " run via comment"@,
                Some(true) => {
                    &&& r matches CommentAction::Answer { scope, answer, github_output }
                    &&& scope@ == follow_up_scope()
                    &&& answer@ == f.capability@
                    &&& github_output@ == output_line("kind"@, "follow_up"@) + output_line(
                        "capability"@,
                        f.capability@,
                    ) + output_block("change_request"@, f.change_request@)
                },
            },
        },
    }
}

/// A repeated delivery is a no-op: once a comment is known to have been
/// acted on, the next step is to do nothing, whatever the commenter's
/// access and whatever the execution; nothing is authorized, loaded,
/// recorded or answered again.
pub proof fn lemma_repeated_comment_is_a_no_op(
    command: CommentCommand,
    execution_id: Option<String>,
    commenter: Seq<char>,
    authorized: Option<bool>,
    execution: Option<Execution>,
    r: CommentAction,
)
    requires
        comment_decided(command, execution_id, commenter, Some(true), authorized, execution, r),
        command is FollowUp || execution_id is Some,
    ensures
        r is AlreadyProcessed,
{
}

/// A comment is recorded as acted on (the `Answer` step) only once it is
/// known not to have been acted on before, its commenter may act, and, for
/// a `choose`, the option answers the execution's open gate; a refusal
/// records nothing.
pub proof fn lemma_only_accepted_comments_are_recorded(
    command: CommentCommand,
    execution_id: Option<String>,
    commenter: Seq<char>,
    processed: Option<bool>,
    authorized: Option<bool>,
    execution: Option<Execution>,
    r: CommentAction,
)
    requires
        comment_decided(command, execution_id, commenter, processed, authorized, execution, r),
        r is Answer,
    ensures
        processed == Some(false),
        authorized == Some(true),
        command matches CommentCommand::Choose(option) ==> (execution matches Some(e) && choice_ok(e@, option@)),
{
}

/// The next step in handling a classified comment, from what has been
/// learned so far: whether it was processed before, whether the commenter
/// may act, and the execution a `choose` answers.
pub fn comment_next(
    command: &CommentCommand,
    execution_id: &Option<String>,
    commenter: &str,
    processed: Option<bool>,
    authorized: Option<bool>,
    execution: &Option<Execution>,
) -> (r: CommentAction)
    ensures
        comment_decided(*command, *execution_id, commenter@, processed, authorized, *execution, r),
{
    match command {
        CommentCommand::Choose(option) => {
            let id = match execution_id {
                None => {
                    return CommentAction::Refuse(
                        KsforgeError::Usage(copy_str("`/ksforge choose` requires --execution-id")),
                    );
                },
                Some(id) => id,
            };
            match processed {
                None => {
                    return CommentAction::CheckProcessed(copy_str(id.as_str()));
                },
                Some(true) => {
                    return CommentAction::AlreadyProcessed;
                },
                Some(false) => {},
            }
            match authorized {
                None => {
                    return CommentAction::Authorize;
                },
                Some(false) => {
                    return CommentAction::Refuse(not_authorized_to_decide(commenter, id.as_str()));
                },
                Some(true) => {},
            }
            match execution {
                None => CommentAction::LoadExecution(copy_str(id.as_str())),
                Some(e) => match check_choice(id.as_str(), e, option.as_str()) {
                    Ok(()) => CommentAction::Answer {
                        scope: copy_str(id.as_str()),
                        answer: copy_str(option.as_str()),
                        github_output: choose_output(id.as_str(), option.as_str()),
                    },
                    Err(err) => CommentAction::Refuse(err),
                },
            }
        },
        CommentCommand::FollowUp(f) => {
            match processed {
                None => {
                    return CommentAction::CheckProcessed(copy_str("ksf_pr_followups"));
                },
                Some(true) => {
                    return CommentAction::AlreadyProcessed;
                },
                Some(false) => {},
            }
            match authorized {
                None => CommentAction::Authorize,
                Some(false) => CommentAction::Refuse(not_authorized_to_follow_up(commenter, f.capability.as_str())),
                Some(true) => CommentAction::Answer {
                    scope: copy_str("ksf_pr_followups"),
                    answer: copy_str(f.capability.as_str()),
                    github_output: follow_up_output(f),
                },
            }
        },
    }
}

/// What to do with a finished run's changes: push them to the branch
/// already checked out (which wins), open a pull request, or nothing.
#[derive(Clone, Copy, Debug, PartialEq, Eq, Structural)]
pub enum Publish {
    PushToBranch,
    PullRequest,
    Nothing,
}

pub fn publish_mode(push_to_branch: bool, create_pull_request: bool) -> (r: Publish)
    ensures
        r == (if push_to_branch {
            Publish::PushToBranch
        } else if create_pull_request {
            Publish::PullRequest
        } else {
            Publish::Nothing
        }),
{
    if push_to_branch {
        Publish::PushToBranch
    } else if create_pull_request {
        Publish::PullRequest
    } else {
        Publish::Nothing
    }
}

/// The notice after a push: the commit's title, or that nothing was there.
pub fn pushed_notice(title: Option<String>) -> (r: String)
    ensures
        match title {
            Some(t) => r@ == "Pushed: "@ + t@,
            None => r@ == "--push-to-branch set, but there is nothing to push yet."@,
        },
{
    match title {
        Some(t) => {
            let mut s = copy_str("Pushed: ");
            push_str(&mut s, t.as_str());
            s
        },
        None => copy_str("--push-to-branch set, but there is nothing to push yet."),
    }
}

/// The notice after opening a pull request: its URL, else its branch.
pub fn pull_request_notice(pr: Option<&PullRequestOutcome>) -> (r: String)
    ensures
        match pr {
            Some(p) => r@ == "Pull request: "@ + match opt_str(p.url) {
                Some(u) => u,
                None => p.branch@,
            },
            None => r@ == "--create-pull-request set, but there is nothing to open a PR for yet."@,
        },
{
    match pr {
        Some(p) => {
            let mut s = copy_str("Pull request: ");
            match &p.url {
                Some(u) => push_str(&mut s, u.as_str()),
                None => push_str(&mut s, p.branch.as_str()),
            }
            s
        },
        None => copy_str("--create-pull-request set, but there is nothing to open a PR for yet."),
    }
}

} // verus!
