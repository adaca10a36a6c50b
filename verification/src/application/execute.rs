//! The one execution pipeline every capability shares: the UNDERSTAND ->
//! LOCATE -> ACT -> VALIDATE -> REPORT phase loop, as a machine from its
//! state and the outcome of the last piece of outside work to its next
//! state and the next piece of outside work. The caller performs that
//! work (persisting the execution, printing progress, calling the agent,
//! taking a filesystem snapshot, reading files, running a validation
//! command, sleeping before a retry) and hands back what came of it.
use vstd::prelude::*;

use crate::agent::executor::{transient, AgentError, AgentRequest, OutputSchema, PermissionMode};
use crate::agent::outcome::{AgentOutcome, OutcomeStatus};
use crate::application::prompt::{
    act_prompts, for_act, for_locate, for_understand, for_validate, locate_prompts,
    understand_prompts, validate_prompts, PromptTexts,
};
use crate::color::{paint, painted, Color};
use crate::domain::capability::{
    capability_change_scope, capability_id, capability_supports_human, capability_tool_policy,
    CapabilityKind, ChangeScope, ToolPolicy,
};
use crate::domain::error::KsforgeError;
use crate::agent::executor::agent_error_prefix;
use crate::agent::outcome::OutcomeView;
use crate::domain::execution::{
    CommandView, EventView, ExecutionView, ReportView, ResultView, ValidationView,
};
use crate::domain::workflow::{derived_kind, ActionView, LocatedView, UnderstandingView};
use crate::domain::test_scope::violations_spec;
use crate::validation::byte_tail;
use crate::workspace::snapshot::lists_changes;
use crate::domain::execution::{
    opt_report, opt_str, wf, AgentValidationReport, DecisionOption, Execution, ExecutionEvent,
    ExecutionResult, ExecutionStatus, ValidationCommandOutcome, ValidationOutcome, now,
};
use crate::domain::request::ImplementationRequest;
use crate::domain::test_scope::violations;
use crate::domain::workflow::{
    ActionKind, ActionResult, LocatedContext, Understanding, WorkflowState, WorkflowView,
};
use crate::text::{copy_str, decimal, decimal_string, first_line, first_line_str, join, join_strings, push_str};
use crate::validation::{command_outcome, tail_cut_ok, OUTPUT_TAIL_BYTES};
use crate::workspace::snapshot::{changed_files, Snapshot};

verus! {

// ---------------------------------------------------------------------
// Tool scopes
// ---------------------------------------------------------------------

pub open spec fn read_tools() -> Seq<Seq<char>> {
    seq!["Read"@, "Grep"@, "Glob"@]
}

/// The tools and permission mode a phase turn under `policy` gets:
/// read-only turns get Read/Grep/Glob; writing turns get the full default
/// tool set with edits accepted.
pub open spec fn scope_of(policy: ToolPolicy) -> (Seq<Seq<char>>, PermissionMode) {
    match policy {
        ToolPolicy::ReadOnly => (read_tools(), PermissionMode::ReadOnly),
        ToolPolicy::ReadWrite => (seq![], PermissionMode::AcceptEdits),
    }
}

/// The VALIDATE turn's fixed scope, whatever the capability: it may
/// execute (to build and test what it checks) but never edit.
pub open spec fn validate_scope() -> (Seq<Seq<char>>, PermissionMode) {
    (read_tools() + seq!["Bash"@, "PowerShell"@], PermissionMode::ExecuteOnly)
}

fn push_read_tools(v: &mut Vec<String>)
    ensures
        final(v).deep_view() == old(v).deep_view() + read_tools(),
{
    let ghost before = v.deep_view();
    v.push(copy_str("Read"));
    v.push(copy_str("Grep"));
    v.push(copy_str("Glob"));
    assert(v.deep_view() =~= before + read_tools());
}

pub fn tools_and_permission(policy: ToolPolicy) -> (r: (Vec<String>, PermissionMode))
    ensures
        (r.0.deep_view(), r.1) == scope_of(policy),
{
    let mut tools: Vec<String> = Vec::new();
    match policy {
        ToolPolicy::ReadOnly => {
            push_read_tools(&mut tools);
            assert(tools.deep_view() =~= read_tools());
            (tools, PermissionMode::ReadOnly)
        },
        ToolPolicy::ReadWrite => {
            assert(tools.deep_view() =~= Seq::<Seq<char>>::empty());
            (tools, PermissionMode::AcceptEdits)
        },
    }
}

pub fn validate_tools_and_permission() -> (r: (Vec<String>, PermissionMode))
    ensures
        (r.0.deep_view(), r.1) == validate_scope(),
{
    let mut tools: Vec<String> = Vec::new();
    push_read_tools(&mut tools);
    let ghost t = tools.deep_view();
    tools.push(copy_str("Bash"));
    tools.push(copy_str("PowerShell"));
    assert(tools.deep_view() =~= read_tools() + seq!["Bash"@, "PowerShell"@]);
    (tools, PermissionMode::ExecuteOnly)
}

// ---------------------------------------------------------------------
// Progress lines
// ---------------------------------------------------------------------

/// A compact stand-in for the agent invocation behind a phase turn:
/// only what differs from turn to turn (tool scope, write permission,
/// whether a prior session continues), not a literal argument list.
pub open spec fn invocation_text(tools: Seq<Seq<char>>, mode: PermissionMode, resume: bool) -> Seq<char> {
    "agent -p"@ + (if tools.len() > 0 { " --tools "@ + join(tools, ","@) } else { seq![] }) + (match mode {
        PermissionMode::ReadOnly => seq![],
        PermissionMode::AcceptEdits => " --permission-mode acceptEdits --allowedTools Bash,PowerShell"@,
        PermissionMode::ExecuteOnly => " --permission-mode default --allowedTools Bash,PowerShell"@,
    }) + (if resume { " --resume <session-id>"@ } else { seq![] }) + " --json-schema <outcome>"@
}

pub fn claude_invocation(tools: &Vec<String>, mode: PermissionMode, resume: bool) -> (r: String)
    ensures
        r@ == invocation_text(tools.deep_view(), mode, resume),
{
    let mut s = copy_str("agent -p");
    let ghost s0 = s@;
    if tools.len() > 0 {
        push_str(&mut s, " --tools ");
        let joined = join_strings(tools.as_slice(), ",");
        proof {
            assert(crate::text::views(tools@) =~= tools.deep_view());
        }
        push_str(&mut s, joined.as_str());
    }
    let ghost s1 = s@;
    match mode {
        PermissionMode::ReadOnly => {},
        PermissionMode::AcceptEdits => {
            push_str(&mut s, " --permission-mode acceptEdits --allowedTools Bash,PowerShell");
        },
        PermissionMode::ExecuteOnly => {
            push_str(&mut s, " --permission-mode default --allowedTools Bash,PowerShell");
        },
    }
    let ghost s2 = s@;
    if resume {
        push_str(&mut s, " --resume <session-id>");
    }
    let ghost s3 = s@;
    push_str(&mut s, " --json-schema <outcome>");
    proof {
        if tools@.len() > 0 {
            assert(s1 =~= s0 + (" --tools "@ + join(tools.deep_view(), ","@)));
        } else {
            assert(s1 =~= s0 + Seq::<char>::empty());
        }
        match mode {
            PermissionMode::ReadOnly => assert(s2 =~= s1 + Seq::<char>::empty()),
            _ => {},
        }
        if !resume {
            assert(s3 =~= s2 + Seq::<char>::empty());
        }
        assert(s@ =~= invocation_text(tools.deep_view(), mode, resume));
    }
    s
}

/// `name` padded with spaces to ten characters.
pub open spec fn pad10(name: Seq<char>) -> Seq<char> {
    if name.len() >= 10 {
        name
    } else {
        name + Seq::new((10 - name.len()) as nat, |i: int| ' ')
    }
}

/// The banner a phase starts with: a blank line, then a bold cyan
/// `→ NAME` and how the phase is carried out.
pub open spec fn header_line(name: Seq<char>, mechanism: Seq<char>, on: bool) -> Seq<char> {
    "\n"@ + painted("→ "@ + pad10(name), Color::Cyan, true, on) + " "@ + mechanism
}

/// An indented result line: a bold mark, then the detail.
pub open spec fn mark_line(mark: Seq<char>, color: Color, detail: Seq<char>, on: bool) -> Seq<char> {
    "  "@ + painted(mark, color, true, on) + " "@ + detail
}

pub open spec fn ok_line(detail: Seq<char>, on: bool) -> Seq<char> {
    mark_line("✓"@, Color::Green, detail, on)
}

pub open spec fn fail_line(detail: Seq<char>, on: bool) -> Seq<char> {
    mark_line("✗"@, Color::Red, detail, on)
}

pub open spec fn wait_line(detail: Seq<char>, on: bool) -> Seq<char> {
    mark_line("⏸"@, Color::Yellow, detail, on)
}

fn header_notice(name: &str, mechanism: &str, on: bool) -> (r: String)
    ensures
        r@ == header_line(name@, mechanism@, on),
{
    let mut label = copy_str("→ ");
    push_str(&mut label, name);
    let mut k = name.unicode_len();
    let ghost base = label@;
    while k < 10
        invariant
            name@.len() <= k <= 10 || (k == name@.len() && k >= 10),
            label@ == base + Seq::new((k - name@.len()) as nat, |i: int| ' '),
        decreases 10 - k,
    {
        push_str(&mut label, " ");
        proof {
            reveal_strlit(" ");
            assert(label@ =~= base + Seq::new((k + 1 - name@.len()) as nat, |i: int| ' '));
        }
        k = k + 1;
    }
    proof {
        if name@.len() >= 10 {
            assert(label@ =~= "→ "@ + name@);
        } else {
            assert(label@ =~= "→ "@ + pad10(name@));
        }
    }
    let mut r = copy_str("\n");
    let p = paint(label.as_str(), Color::Cyan, true, on);
    push_str(&mut r, p.as_str());
    push_str(&mut r, " ");
    push_str(&mut r, mechanism);
    proof {
        assert(r@ =~= header_line(name@, mechanism@, on));
    }
    r
}

fn mark_notice(mark: &str, color: Color, detail: &str, on: bool) -> (r: String)
    ensures
        r@ == mark_line(mark@, color, detail@, on),
{
    let mut r = copy_str("  ");
    let p = paint(mark, color, true, on);
    push_str(&mut r, p.as_str());
    push_str(&mut r, " ");
    push_str(&mut r, detail);
    proof {
        assert(r@ =~= mark_line(mark@, color, detail@, on));
    }
    r
}

fn status_detail(head: &str, text: &str) -> (r: String)
    ensures
        r@ == head@ + first_line(text@),
{
    let mut r = copy_str(head);
    let l = first_line_str(text);
    push_str(&mut r, l.as_str());
    r
}

// ---------------------------------------------------------------------
// Retrying a transient failure
// ---------------------------------------------------------------------

/// How many times one phase turn is tried in all.
pub const MAX_ATTEMPTS: u32 = 3;

/// The wait before retry number `attempt + 1`: two seconds, doubled for
/// each earlier retry.
pub open spec fn retry_delay(attempt: nat) -> nat
    decreases attempt,
{
    if attempt <= 1 {
        2
    } else {
        2 * retry_delay((attempt - 1) as nat)
    }
}

/// Whether a failed attempt is tried again: only a transient failure, and
/// only while attempts remain.
pub open spec fn retries(attempt: nat, e: AgentError) -> bool {
    attempt < MAX_ATTEMPTS && transient(e)
}

fn delay_for(attempt: u32) -> (r: u64)
    requires
        1 <= attempt < MAX_ATTEMPTS,
    ensures
        r == retry_delay(attempt as nat),
{
    if attempt == 1 {
        2
    } else {
        assert(retry_delay(2) == 4) by {
            reveal_with_fuel(retry_delay, 2);
        }
        4
    }
}

/// The text an agent failure is reported with: the error's message, the
/// capability, and the message again.
pub open spec fn executor_failure(message: Seq<char>, k: CapabilityKind) -> Seq<char> {
    message + " ("@ + capability_id(k) + " capability): "@ + message
}

/// The progress line announcing a retry.
pub open spec fn retry_line(delay: nat, attempt: nat, message: Seq<char>, on: bool) -> Seq<char> {
    "  "@ + painted(
        "[ksforge] transient executor error, retrying in "@ + decimal(delay) + "s (attempt "@ + decimal(
            attempt + 1,
        ) + " of 3): "@ + message,
        Color::Yellow,
        false,
        on,
    )
}

// ---------------------------------------------------------------------
// The machine
// ---------------------------------------------------------------------

/// The run settings a phase turn carries over from the command line.
pub struct LoopSettings {
    pub model: Option<String>,
    /// The spend cap, as the decimal text it is passed on with.
    pub max_budget_usd: Option<String>,
    pub mcp_config: Option<String>,
    /// Whether progress lines are colored.
    pub color: bool,
}

/// What came back from a successful agent call.
pub struct AgentReply {
    /// The conversation id the agent reported, if any.
    pub session_id: Option<String>,
    /// The reply read as a phase outcome, or why it could not be (the
    /// text of a malformed-output error).
    pub outcome: Result<AgentOutcome, String>,
}

/// What the outside work the machine asked for came to.
pub enum LoopEvent {
    /// Start driving the loop.
    Begin,
    /// The snapshot asked for.
    Snapshot(Snapshot),
    /// The agent call returned.
    AgentReplied(AgentReply),
    /// The agent call failed.
    AgentFailed(AgentError),
    /// The pause before a retry is over.
    Slept,
    /// The contents of the files asked for, in order; empty for a file that
    /// could not be read as text.
    FilesRead(Vec<String>),
    /// The validation command ran: whether it exited successfully, and its
    /// stdout followed by its stderr.
    CommandRan { success: bool, output: String },
    /// The validation command could not be started; the error's text.
    CommandFailedToStart(String),
}

/// The outside work to do next, after printing the step's progress lines
/// and persisting the execution if asked to.
pub enum LoopWait {
    /// Snapshot the working directory.
    Snapshot,
    /// Run one agent turn.
    CallAgent(AgentRequest),
    /// Wait this many seconds.
    Sleep(u64),
    /// Read these files (relative to the working directory).
    ReadFiles(Vec<String>),
    /// Run this validation command in the working directory.
    RunCommand(String),
    /// The loop is over: stopped at a completed, paused or failed
    /// execution, or with an error.
    Finished(Result<(), KsforgeError>),
}

pub struct LoopStep {
    /// Progress lines for stderr, in order.
    pub notices: Vec<String>,
    /// Whether the execution must be persisted now.
    pub save: bool,
    pub wait: LoopWait,
}

/// Which agent turn is in flight.
pub enum TurnKind {
    Understand,
    Locate,
    Act { before: Snapshot },
    Review { commands: Vec<ValidationCommandOutcome>, before: Snapshot },
}

/// Where the loop stands between two pieces of outside work.
pub enum Stage {
    Ready,
    ActBefore,
    /// An agent turn in flight; `restated` is what was appended to its
    /// phase prompt (the human's decision, on the first turn after a resume).
    Turn { kind: TurnKind, request: AgentRequest, attempt: u32, sleeping: bool, restated: Ghost<Seq<char>> },
    ActAfter { before: Snapshot, outcome: AgentOutcome },
    ActScope { changed: Vec<String>, outcome: AgentOutcome },
    Commands { next: usize, outcomes: Vec<ValidationCommandOutcome> },
    ReviewBefore { commands: Vec<ValidationCommandOutcome> },
    ReviewAfter { commands: Vec<ValidationCommandOutcome>, before: Snapshot, outcome: AgentOutcome },
    Done,
}

/// One run of the phase loop over an execution.
pub struct PhaseLoop {
    pub capability: CapabilityKind,
    pub request: ImplementationRequest,
    pub texts: PromptTexts,
    pub settings: LoopSettings,
    /// The directory the agent runs in: the workspace, or its isolated
    /// copy on a dry run.
    pub working_dir: String,
    /// The agent conversation to continue, once there is one.
    pub session_id: Option<String>,
    /// Appended to the first phase turn's prompt only: the human's
    /// decision, restated when a paused run resumes.
    pub decision_suffix: Option<String>,
    pub stage: Stage,
}

pub open spec fn phase_is(w: WorkflowView, k: TurnKind) -> bool {
    match k {
        TurnKind::Understand => w is Understand,
        TurnKind::Locate => w is Locate,
        TurnKind::Act { before } => w is Act && before.wf(),
        TurnKind::Review { before, .. } => w is Validate && before.wf(),
    }
}

/// A loop that ends without an error leaves the execution completed at
/// REPORT, paused on a decision, or failed.
pub open spec fn stopped_well(e: crate::domain::execution::ExecutionView, w: LoopWait) -> bool {
    w matches LoopWait::Finished(Ok(_)) ==> (e.status == ExecutionStatus::Failed || e.status
        == ExecutionStatus::WaitingForHuman || (e.status == ExecutionStatus::Completed && e.workflow is Report))
}

/// The configuration of a run, which no step changes.
pub open spec fn same_config(a: PhaseLoop, b: PhaseLoop) -> bool {
    &&& a.capability == b.capability
    &&& a.request == b.request
    &&& a.texts == b.texts
    &&& a.settings == b.settings
    &&& a.working_dir == b.working_dir
}

// ---------------------------------------------------------------------
// What a step does
// ---------------------------------------------------------------------

/// The record is the same execution, its event log only appended to.
pub open spec fn same_record(e0: ExecutionView, e: ExecutionView) -> bool {
    &&& e.id == e0.id
    &&& e.change_request == e0.change_request
    &&& e.capability == e0.capability
    &&& e.created_at == e0.created_at
    &&& e0.messages.len() <= e.messages.len()
    &&& forall|i: int| 0 <= i < e0.messages.len() ==> #[trigger] e.messages[i] == e0.messages[i]
}

/// The kinds of event the phase loop logs.
pub enum Logged {
    AgentStarted,
    QuestionRaised,
    ValidationStarted,
    ValidationPassed,
    ValidationFailed,
    Completed,
    Failed,
}

pub open spec fn logged_as(ev: EventView, k: Logged) -> bool {
    match k {
        Logged::AgentStarted => ev is AgentStarted,
        Logged::QuestionRaised => ev is QuestionRaised,
        Logged::ValidationStarted => ev is ValidationStarted,
        Logged::ValidationPassed => ev is ValidationPassed,
        Logged::ValidationFailed => ev is ValidationFailed,
        Logged::Completed => ev is Completed,
        Logged::Failed => ev is Failed,
    }
}

/// The log is `e0`'s with exactly events of the kinds `ks` added, in
/// that order.
pub open spec fn appended(e0: ExecutionView, e: ExecutionView, ks: Seq<Logged>) -> bool {
    &&& e.messages.len() == e0.messages.len() + ks.len()
    &&& forall|i: int| 0 <= i < e0.messages.len() ==> #[trigger] e.messages[i] == e0.messages[i]
    &&& forall|j: int| 0 <= j < ks.len() ==> logged_as(e.messages[e0.messages.len() + j], #[trigger] ks[j])
}

pub proof fn lemma_appended_trans(e0: ExecutionView, e1: ExecutionView, e2: ExecutionView, a: Seq<Logged>, b: Seq<Logged>)
    requires
        appended(e0, e1, a),
        appended(e1, e2, b),
    ensures
        appended(e0, e2, a + b),
{
    let n0 = e0.messages.len();
    let n1 = e1.messages.len();
    assert forall|j: int| 0 <= j < (a + b).len() implies logged_as(e2.messages[n0 + j], #[trigger] (a + b)[j]) by {
        if j < a.len() {
            assert((a + b)[j] == a[j]);
            assert(logged_as(e1.messages[n0 + j], a[j]));
            assert(e2.messages[n0 + j] == e1.messages[n0 + j]);
        } else {
            assert((a + b)[j] == b[j - a.len()]);
            assert(logged_as(e2.messages[n1 + (j - a.len())], b[j - a.len()]));
        }
    }
}

/// Nothing but the workflow, the conversation id, the log (appended to)
/// and the time of the last change differs: status, step, artifacts,
/// result, the pending question and every gate are kept.
pub open spec fn kept(e0: ExecutionView, e: ExecutionView) -> bool {
    &&& same_record(e0, e)
    &&& e.status == e0.status
    &&& e.current_step == e0.current_step
    &&& e.artifacts == e0.artifacts
    &&& e.result == e0.result
    &&& e.pending_question == e0.pending_question
    &&& e.gates == e0.gates
}

/// A step that changed the execution asks for it to be saved, unless the
/// loop ends with an error; a loop that ends without one always saves.
pub open spec fn saved_if_changed(e0: ExecutionView, e: ExecutionView, r: LoopStep) -> bool {
    &&& (r.wait matches LoopWait::Finished(Ok(_)) ==> r.save)
    &&& (e != e0 && !(r.wait matches LoopWait::Finished(Err(_))) ==> r.save)
}

/// What a turn's prompt has appended: the decision, when one is waiting to
/// be restated.
pub open spec fn suffix_text(s: Option<String>) -> Seq<char> {
    match s {
        Some(d) => d@,
        None => seq![],
    }
}

/// The decision to restate is appended to the first turn a step starts
/// and to no later one: it is kept until then, and a fresh turn carries
/// exactly what was waiting (nothing once it has been used); a retried
/// turn keeps what it carried.
pub open spec fn restated_ok(l0: PhaseLoop, event: LoopEvent, l1: PhaseLoop) -> bool {
    &&& (l1.decision_suffix is Some ==> l1.decision_suffix == l0.decision_suffix)
    &&& (l0.decision_suffix is Some ==> (l1.decision_suffix == l0.decision_suffix || (l1.stage matches Stage::Turn {
        restated,
        ..
    } && restated@ == suffix_text(l0.decision_suffix))))
    &&& (l1.stage matches Stage::Turn { restated, .. } ==> (if l0.stage is Turn && (event is Slept || event is AgentFailed) {
        l0.stage matches Stage::Turn { restated: r0, .. } && restated == r0
    } else {
        restated@ == suffix_text(l0.decision_suffix)
    }))
}

/// What a step that may start a fresh turn does with the decision to
/// restate: it keeps it, or hands it to the turn it starts; a fresh turn
/// carries what was waiting.
pub open spec fn fresh_restated(l0: PhaseLoop, l1: PhaseLoop) -> bool {
    &&& (l1.decision_suffix is Some ==> l1.decision_suffix == l0.decision_suffix)
    &&& (l0.decision_suffix is Some ==> (l1.decision_suffix == l0.decision_suffix || (l1.stage matches Stage::Turn {
        restated,
        ..
    } && restated@ == suffix_text(l0.decision_suffix))))
    &&& (l1.stage matches Stage::Turn { restated, .. } ==> restated@ == suffix_text(l0.decision_suffix))
}

/// The execution has ended as failed with `detail` at the phase it stood
/// at: failed, with the log appended to and no gate raised or closed.
pub open spec fn failed_from(e0: ExecutionView, e: ExecutionView, detail: Seq<char>) -> bool {
    &&& failed_with(e, e0.workflow, detail)
    &&& same_record(e0, e)
    &&& e.artifacts == e0.artifacts
    &&& e.pending_question == e0.pending_question
    &&& e.gates == e0.gates
}

/// The execution has completed at REPORT, with the log appended to and
/// its gates kept.
pub open spec fn reported_from(e0: ExecutionView, e: ExecutionView) -> bool {
    &&& reported(e)
    &&& same_record(e0, e)
    &&& e.pending_question == e0.pending_question
    &&& e.gates == e0.gates
}

/// The execution has ended as failed with `detail` while its workflow
/// stood at `w`: failed status, a failed result whose summary is `detail`,
/// and `Failed` with that detail as its last event.
pub open spec fn failed_with(e: ExecutionView, w: WorkflowView, detail: Seq<char>) -> bool {
    &&& e.status == ExecutionStatus::Failed
    &&& e.workflow == w
    &&& e.result matches Some(res)
    &&& !res.success
    &&& res.summary == detail
    &&& e.messages.len() > 0
    &&& e.messages.last() matches EventView::Failed { detail: d, .. }
    &&& d == detail
}

/// The execution has completed at REPORT, its result assembled from what
/// ACT and VALIDATE established.
pub open spec fn reported(e: ExecutionView) -> bool {
    &&& e.status == ExecutionStatus::Completed
    &&& e.workflow matches WorkflowView::Report { action, validation, .. }
    &&& e.result == Some(
        ResultView {
            success: true,
            title: action.title,
            summary: action.summary,
            changed_files: action.changed_files,
            validation,
            completed: action.completed,
            open_items: action.open_items,
            recommendation: action.recommendation,
        },
    )
}

/// A failed turn's reason: the outcome's `failure_reason`, else its
/// summary.
pub open spec fn reason_of(o: OutcomeView) -> Seq<char> {
    match o.failure_reason {
        Some(r) => r,
        None => o.summary,
    }
}

/// The question a gate is raised with.
pub open spec fn question_of(o: OutcomeView) -> Seq<char> {
    match o.question {
        Some(q) => q,
        None => "The coding agent needs a decision to continue."@,
    }
}

/// Why a question without options fails the run.
pub open spec fn no_options_reason(o: OutcomeView) -> Seq<char> {
    "agent asked a question without offering any options: "@ + match o.question {
        Some(q) => q,
        None => "(no question text)"@,
    }
}

/// Why a question from a capability without decisions fails the run.
pub open spec fn unsupported_reason(k: CapabilityKind, o: OutcomeView) -> Seq<char> {
    capability_id(k) + " does not support human-in-the-loop decisions, but the agent asked one: "@
        + match o.question {
        Some(q) => q,
        None => seq![],
    }
}

/// The execution is paused on a new gate raised from `o`: its question,
/// options, kept recommendation, context and completed work.
pub open spec fn paused_on(e0: ExecutionView, e: ExecutionView, o: OutcomeView) -> bool {
    &&& e.status == ExecutionStatus::WaitingForHuman
    &&& e.workflow == e0.workflow
    &&& e.pending_question matches Some(g)
    &&& g.question == question_of(o)
    &&& g.options == o.options
    &&& g.recommended_option == kept_recommendation(o.options, o.recommended_option)
    &&& g.context == (match o.recommendation {
        Some(c) => c,
        None => seq![],
    })
    &&& g.completed == o.completed
    &&& e.gates == e0.gates.push(g)
    &&& same_record(e0, e)
    &&& e.artifacts == e0.artifacts
    &&& e.result == e0.result
}

pub open spec fn understood(o: OutcomeView) -> UnderstandingView {
    UnderstandingView { summary: o.summary, scope: o.scope }
}

pub open spec fn located_of(o: OutcomeView) -> LocatedView {
    LocatedView {
        relevant_files: o.relevant_files,
        existing_abstractions: o.existing_abstractions,
        existing_tests: o.existing_tests,
        conventions: o.conventions,
    }
}

/// ACT's result: the filesystem diff as the changed files, the rest from
/// the agent's outcome.
pub open spec fn action_of(k: CapabilityKind, o: OutcomeView, changed: Seq<Seq<char>>) -> ActionView {
    ActionView {
        kind: derived_kind(capability_id(k), changed.len() == 0),
        title: o.title,
        summary: o.summary,
        changed_files: changed,
        completed: o.completed,
        open_items: o.open_items,
        recommendation: o.recommendation,
    }
}

pub open spec fn review_of(o: OutcomeView) -> ReportView {
    ReportView {
        summary: o.summary,
        completed: o.completed,
        open_items: o.open_items,
        recommendation: o.recommendation,
    }
}

/// ACT -> VALIDATE with `action`.
pub open spec fn acted(w: WorkflowView, action: ActionView) -> WorkflowView {
    match w {
        WorkflowView::Act { understanding, located } => WorkflowView::Validate { understanding, located, action },
        _ => w,
    }
}

/// VALIDATE -> REPORT with `validation`.
pub open spec fn validated(w: WorkflowView, validation: ValidationView) -> WorkflowView {
    match w {
        WorkflowView::Validate { understanding, located, action } => WorkflowView::Report {
            understanding,
            located,
            action,
            validation,
        },
        _ => w,
    }
}

/// After the validation commands passed with these outcomes: the agent
/// review's snapshot when the policy asks for one, else REPORT.
pub open spec fn after_commands(
    l: PhaseLoop,
    w: WorkflowView,
    cmds: Seq<CommandView>,
    e0: ExecutionView,
    e: ExecutionView,
    stage: Stage,
    wait: LoopWait,
    pre: Seq<Logged>,
) -> bool {
    if l.request.validation.agent_review {
        &&& e.workflow == w
        &&& kept(e0, e)
        &&& appended(e0, e, pre)
        &&& wait is Snapshot
        &&& stage matches Stage::ReviewBefore { commands }
        &&& commands.deep_view() == cmds
    } else {
        &&& e.workflow == validated(w, ValidationView { passed: true, commands: cmds, agent_review: None })
        &&& reported_from(e0, e)
        &&& appended(
            e0,
            e,
            pre + (if cmds.len() > 0 {
                seq![Logged::ValidationPassed]
            } else {
                seq![]
            }) + seq![Logged::Completed],
        )
        &&& wait matches LoopWait::Finished(Ok(_))
    }
}

/// VALIDATE starting at `w`: the first command, else the review or REPORT.
pub open spec fn began_validate(
    l: PhaseLoop,
    w: WorkflowView,
    e0: ExecutionView,
    e: ExecutionView,
    stage: Stage,
    wait: LoopWait,
) -> bool {
    if l.request.validation.commands@.len() > 0 {
        &&& e.workflow == w
        &&& kept(e0, e)
        &&& appended(e0, e, seq![Logged::ValidationStarted])
        &&& wait matches LoopWait::RunCommand(c)
        &&& c@ == l.request.validation.commands@[0]@
        &&& stage matches Stage::Commands { next, outcomes }
        &&& next == 0
        &&& outcomes@.len() == 0
    } else {
        after_commands(
            l,
            w,
            seq![],
            e0,
            e,
            stage,
            wait,
            if l.request.validation.agent_review {
                seq![Logged::ValidationStarted]
            } else {
                seq![]
            },
        )
    }
}

/// Starting whatever phase `e0`'s workflow stands at.
pub open spec fn began(l: PhaseLoop, e0: ExecutionView, e: ExecutionView, stage: Stage, wait: LoopWait) -> bool {
    let w = e0.workflow;
    match w {
        WorkflowView::Understand => e.workflow == w && kept(e0, e) && appended(e0, e, seq![Logged::AgentStarted])
            && wait is CallAgent && stage matches Stage::Turn { kind: TurnKind::Understand, .. },
        WorkflowView::Locate { .. } => e.workflow == w && kept(e0, e) && appended(e0, e, seq![Logged::AgentStarted])
            && wait is CallAgent && stage matches Stage::Turn { kind: TurnKind::Locate, .. },
        WorkflowView::Act { .. } => e == e0 && wait is Snapshot && stage is ActBefore,
        WorkflowView::Validate { .. } => began_validate(l, w, e0, e, stage, wait),
        WorkflowView::Report { .. } => e.workflow == w && reported_from(e0, e) && appended(e0, e, seq![Logged::Completed])
            && wait matches LoopWait::Finished(Ok(_)),
        WorkflowView::Legacy => e == e0 && wait matches LoopWait::Finished(Err(KsforgeError::Usage(_))),
    }
}

/// What a turn's outcome `o` does: a failure fails the run with its
/// reason; a question raises a gate where the capability can ask and
/// options are offered, and fails the run otherwise; a completed turn
/// joins the workflow (UNDERSTAND, LOCATE) and the next phase starts, or
/// has the tree snapshotted again (ACT, the VALIDATE review).
pub open spec fn answered(
    l: PhaseLoop,
    kind: TurnKind,
    e0: ExecutionView,
    o: OutcomeView,
    e: ExecutionView,
    stage: Stage,
    wait: LoopWait,
) -> bool {
    let k = l.capability;
    let w = e0.workflow;
    match o.status {
        OutcomeStatus::Failed => failed_from(e0, e, reason_of(o)) && appended(e0, e, seq![Logged::Failed])
            && wait matches LoopWait::Finished(Ok(_)),
        OutcomeStatus::WaitingForHuman => wait matches LoopWait::Finished(Ok(_)) && if capability_supports_human(k)
            && o.options.len() > 0 {
            paused_on(e0, e, o) && appended(e0, e, seq![Logged::QuestionRaised])
        } else if capability_supports_human(k) {
            failed_from(e0, e, no_options_reason(o)) && appended(e0, e, seq![Logged::Failed])
        } else {
            failed_from(e0, e, unsupported_reason(k, o)) && appended(e0, e, seq![Logged::Failed])
        },
        OutcomeStatus::Completed => match kind {
            TurnKind::Understand => e.workflow == (WorkflowView::Locate { understanding: understood(o) })
                && kept(e0, e) && appended(e0, e, seq![Logged::AgentStarted]) && wait is CallAgent
                && stage matches Stage::Turn { kind: TurnKind::Locate, .. },
            TurnKind::Locate => (w matches WorkflowView::Locate { understanding } && e.workflow
                == (WorkflowView::Act { understanding, located: located_of(o) })) && kept(e0, e)
                && appended(e0, e, seq![]) && wait is Snapshot && stage is ActBefore,
            TurnKind::Act { before } => {
                &&& e.workflow == w
                &&& kept(e0, e)
                &&& appended(e0, e, seq![])
                &&& wait is Snapshot
                &&& stage matches Stage::ActAfter { before: b, outcome }
                &&& b == before
                &&& outcome@ == o
            },
            TurnKind::Review { commands, before } => {
                &&& e.workflow == w
                &&& kept(e0, e)
                &&& appended(e0, e, seq![])
                &&& wait is Snapshot
                &&& stage matches Stage::ReviewAfter { commands: c, before: b, outcome }
                &&& c.deep_view() == commands.deep_view()
                &&& b == before
                &&& outcome@ == o
            },
        },
    }
}

/// The error text an agent error's message has.
pub open spec fn message_of(e: AgentError, m: Seq<char>) -> bool {
    match e {
        AgentError::Io(_) => true,
        AgentError::NotFound(d) | AgentError::NonZeroExit(d) | AgentError::MalformedOutput(d)
        | AgentError::Unsupported(d) => m == agent_error_prefix(e) + d@,
    }
}

/// The loop ends with the agent's failure, reported with the capability.
pub open spec fn failure_reported(k: CapabilityKind, err: AgentError, wait: LoopWait) -> bool {
    wait matches LoopWait::Finished(Err(KsforgeError::ExecutorFailed(m))) && exists|msg: Seq<char>|
        message_of(err, msg) && m@ == executor_failure(msg, k)
}

/// Why a tests-only capability's ACT fails: the files outside its scope.
pub open spec fn scope_refusal(k: CapabilityKind, outside: Seq<Seq<char>>) -> Seq<char> {
    "`"@ + capability_id(k) + "` may only touch test files, but changed: "@ + join(outside, ", "@)
}

/// ACT is done with the diff `changed`: the scope check fails the run at
/// ACT naming the files outside it, or the result joins the workflow and
/// VALIDATE starts.
pub open spec fn act_checked(
    l: PhaseLoop,
    e0: ExecutionView,
    o: OutcomeView,
    changed: Seq<Seq<char>>,
    contents: Seq<Seq<char>>,
    e: ExecutionView,
    stage: Stage,
    wait: LoopWait,
) -> bool {
    let outside = violations_spec(changed, contents);
    if outside.len() > 0 {
        failed_from(e0, e, scope_refusal(l.capability, outside)) && appended(e0, e, seq![Logged::Failed])
            && wait matches LoopWait::Finished(Ok(_))
    } else {
        began_validate(l, acted(e0.workflow, action_of(l.capability, o, changed)), e0, e, stage, wait)
    }
}

/// ACT's turn completed and the tree was snapshotted again: a tests-only
/// capability has the changed files read for the scope check; any other
/// has the result join the workflow and VALIDATE start.
pub open spec fn act_snapshotted(
    l: PhaseLoop,
    e0: ExecutionView,
    before: Seq<(Seq<char>, Seq<char>)>,
    after: Seq<(Seq<char>, Seq<char>)>,
    o: OutcomeView,
    e: ExecutionView,
    stage: Stage,
    wait: LoopWait,
) -> bool {
    match capability_change_scope(l.capability) {
        Some(ChangeScope::TestsOnly) => {
            &&& e == e0
            &&& wait is ReadFiles
            &&& stage matches Stage::ActScope { changed, outcome }
            &&& lists_changes(before, after, changed.deep_view())
            &&& outcome@ == o
        },
        None => exists|changed: Seq<Seq<char>>|
            lists_changes(before, after, changed) && began_validate(
                l,
                acted(e0.workflow, action_of(l.capability, o, changed)),
                e0,
                e,
                stage,
                wait,
            ),
    }
}

/// The text a failed validation command is reported with.
pub open spec fn command_failure(command: Seq<char>) -> Seq<char> {
    "`"@ + command + "` failed"@
}

/// A validation command finished: a failure fails the run at VALIDATE,
/// logged as `ValidationFailed`; a success runs the next command, or the
/// review or REPORT after the last.
pub open spec fn command_checked(
    l: PhaseLoop,
    e0: ExecutionView,
    next: int,
    outcomes: Seq<CommandView>,
    success: bool,
    output: Seq<char>,
    e: ExecutionView,
    stage: Stage,
    wait: LoopWait,
) -> bool {
    let cmds = l.request.validation.commands@;
    let cmd = cmds[next]@;
    let done = outcomes.push(CommandView { command: cmd, passed: true, output_tail: byte_tail(output, OUTPUT_TAIL_BYTES as int) });
    if !success {
        &&& failed_from(e0, e, command_failure(cmd))
        &&& appended(e0, e, seq![Logged::ValidationFailed, Logged::Failed])
        &&& e.messages.len() >= 2
        &&& e.messages[e.messages.len() - 2] matches EventView::ValidationFailed { detail, .. }
        &&& detail == command_failure(cmd)
        &&& wait matches LoopWait::Finished(Ok(_))
    } else if next + 1 < cmds.len() {
        &&& e == e0
        &&& wait matches LoopWait::RunCommand(c)
        &&& c@ == cmds[next + 1]@
        &&& stage matches Stage::Commands { next: n, outcomes: os }
        &&& n == next + 1
        &&& os.deep_view() == done
    } else {
        after_commands(l, e0.workflow, done, e0, e, stage, wait, seq![])
    }
}

/// Why a review that changed the tree fails the run.
pub open spec fn review_refusal(touched: Seq<Seq<char>>) -> Seq<char> {
    "validate must not modify the workspace, but changed: "@ + join(touched, ", "@)
}

/// The review turn completed and the tree was snapshotted again: any
/// change fails the run, else the review joins VALIDATE and REPORT runs.
pub open spec fn review_checked(
    l: PhaseLoop,
    e0: ExecutionView,
    commands: Seq<CommandView>,
    before: Seq<(Seq<char>, Seq<char>)>,
    after: Seq<(Seq<char>, Seq<char>)>,
    o: OutcomeView,
    e: ExecutionView,
    wait: LoopWait,
) -> bool {
    exists|touched: Seq<Seq<char>>|
        lists_changes(before, after, touched) && (if touched.len() > 0 {
            &&& failed_from(e0, e, review_refusal(touched))
            &&& appended(e0, e, seq![Logged::ValidationFailed, Logged::Failed])
            &&& e.messages.len() >= 2
            &&& e.messages[e.messages.len() - 2] matches EventView::ValidationFailed { detail, .. }
            &&& detail == review_refusal(touched)
            &&& wait matches LoopWait::Finished(Ok(_))
        } else {
            e.workflow == validated(
                e0.workflow,
                ValidationView { passed: true, commands, agent_review: Some(review_of(o)) },
            ) && reported_from(e0, e) && appended(e0, e, seq![Logged::ValidationPassed, Logged::Completed])
                && wait matches LoopWait::Finished(Ok(_))
        })
}

/// What one step does, by where the loop stood and what came back.
pub open spec fn stepped(
    l0: PhaseLoop,
    e0: ExecutionView,
    event: LoopEvent,
    l1: PhaseLoop,
    e1: ExecutionView,
    wait: LoopWait,
) -> bool {
    match l0.stage {
        Stage::Ready => began(l0, e0, e1, l1.stage, wait),
        Stage::Turn { kind, attempt, .. } => match event {
            LoopEvent::AgentReplied(reply) => e1.agent_session_id == (match reply.session_id {
                Some(s) => Some(s@),
                None => opt_str(l0.session_id),
            }) && match reply.outcome {
                Ok(o) => answered(l0, kind, e0, o@, e1, l1.stage, wait),
                Err(_) => kept(e0, e1) && appended(e0, e1, seq![]) && e1.workflow == e0.workflow && wait matches LoopWait::Finished(
                    Err(KsforgeError::ExecutorFailed(_)),
                ),
            },
            LoopEvent::AgentFailed(err) => e1 == e0 && (!retries(attempt as nat, err) ==> failure_reported(
                l0.capability,
                err,
                wait,
            )),
            _ => true,
        },
        Stage::ActBefore => match event {
            LoopEvent::Snapshot(s) => {
                &&& kept(e0, e1)
                &&& appended(e0, e1, seq![Logged::AgentStarted])
                &&& e1.workflow == e0.workflow
                &&& wait is CallAgent
                &&& l1.stage matches Stage::Turn { kind: TurnKind::Act { before }, .. }
                &&& before == s
            },
            _ => true,
        },
        Stage::ReviewBefore { commands } => match event {
            LoopEvent::Snapshot(s) => {
                &&& kept(e0, e1)
                &&& appended(e0, e1, seq![Logged::AgentStarted])
                &&& e1.workflow == e0.workflow
                &&& wait is CallAgent
                &&& l1.stage matches Stage::Turn { kind: TurnKind::Review { commands: c, before }, .. }
                &&& c.deep_view() == commands.deep_view()
                &&& before == s
            },
            _ => true,
        },
        Stage::ActAfter { before, outcome } => match event {
            LoopEvent::Snapshot(after) => act_snapshotted(l0, e0, before@, after@, outcome@, e1, l1.stage, wait),
            _ => true,
        },
        Stage::ActScope { changed, outcome } => match event {
            LoopEvent::FilesRead(contents) => act_checked(
                l0,
                e0,
                outcome@,
                changed.deep_view(),
                contents.deep_view(),
                e1,
                l1.stage,
                wait,
            ),
            _ => true,
        },
        Stage::Commands { next, outcomes } => match event {
            LoopEvent::CommandRan { success, output } => command_checked(
                l0,
                e0,
                next as int,
                outcomes.deep_view(),
                success,
                output@,
                e1,
                l1.stage,
                wait,
            ),
            LoopEvent::CommandFailedToStart(err) => {
                &&& e1 == e0
                &&& wait matches LoopWait::Finished(Err(KsforgeError::ValidationFailed(m)))
                &&& m@ == "failed to run `"@ + l0.request.validation.commands@[next as int]@ + "`: "@ + err@
            },
            _ => true,
        },
        Stage::ReviewAfter { commands, before, outcome } => match event {
            LoopEvent::Snapshot(after) => review_checked(
                l0,
                e0,
                commands.deep_view(),
                before@,
                after@,
                outcome@,
                e1,
                wait,
            ),
            _ => true,
        },
        _ => true,
    }
}

impl PhaseLoop {
    /// The tools and permission mode of each kind of turn: UNDERSTAND and
    /// LOCATE are always read-only, ACT follows the capability's policy,
    /// VALIDATE may execute but never edit.
    pub open spec fn turn_scope(&self, kind: TurnKind) -> (Seq<Seq<char>>, PermissionMode) {
        match kind {
            TurnKind::Understand | TurnKind::Locate => scope_of(ToolPolicy::ReadOnly),
            TurnKind::Act { .. } => scope_of(capability_tool_policy(self.capability)),
            TurnKind::Review { .. } => validate_scope(),
        }
    }

    /// The system and user prompts of each kind of turn, from what the
    /// earlier phases established.
    pub open spec fn turn_prompts(&self, kind: TurnKind, w: WorkflowState) -> (Seq<char>, Seq<char>) {
        match (kind, w) {
            (TurnKind::Understand, _) => understand_prompts(self.texts, self.capability, self.request, self.working_dir@),
            (TurnKind::Locate, WorkflowState::Locate { understanding }) => locate_prompts(
                self.texts,
                self.capability,
                self.request,
                self.working_dir@,
                understanding,
            ),
            (TurnKind::Act { .. }, WorkflowState::Act { understanding, located }) => act_prompts(
                self.texts,
                self.capability,
                self.request,
                self.working_dir@,
                understanding,
                located,
            ),
            (TurnKind::Review { .. }, WorkflowState::Validate { understanding, action, .. }) => validate_prompts(
                self.texts,
                self.capability,
                self.request,
                self.working_dir@,
                understanding,
                action,
            ),
            _ => (seq![], seq![]),
        }
    }

    /// A turn's request: its scope, its prompts (the user prompt followed
    /// by `restated`, the decision restated on the first turn after a
    /// resume), the outcome schema, the working directory, the run's
    /// settings and the conversation to continue.
    pub open spec fn request_ok(
        &self,
        kind: TurnKind,
        w: WorkflowState,
        r: crate::agent::executor::RequestView,
        restated: Seq<char>,
    ) -> bool {
        let (tools, mode) = self.turn_scope(kind);
        let (system, user) = self.turn_prompts(kind, w);
        &&& r.tools == tools
        &&& r.permission_mode == mode
        &&& r.system_prompt == Some(system)
        &&& r.prompt == user + restated
        &&& r.working_directory == self.working_dir@
        &&& r.json_schema == Some(OutputSchema::Outcome)
        &&& r.model == opt_str(self.settings.model)
        &&& r.max_budget_usd == opt_str(self.settings.max_budget_usd)
        &&& r.mcp_config == opt_str(self.settings.mcp_config)
        &&& r.resume_session_id == opt_str(self.session_id)
    }

    /// The stage agrees with where the execution's workflow stands.
    pub open spec fn inv(&self, w: WorkflowState) -> bool {
        match self.stage {
            Stage::Ready => true,
            Stage::ActBefore => w@ is Act,
            Stage::Turn { kind, request, attempt, sleeping, restated } => phase_is(w@, kind) && 1 <= attempt
                <= MAX_ATTEMPTS && (sleeping ==> attempt < MAX_ATTEMPTS) && self.request_ok(
                kind,
                w,
                request@,
                restated@,
            ) && self.decision_suffix is None,
            Stage::ActAfter { before, .. } => w@ is Act && before.wf(),
            Stage::ActScope { .. } => w@ is Act,
            Stage::Commands { next, .. } => w@ is Validate && next < self.request.validation.commands@.len(),
            Stage::ReviewBefore { .. } => w@ is Validate,
            Stage::ReviewAfter { before, .. } => w@ is Validate && before.wf(),
            Stage::Done => true,
        }
    }

    /// The events the current stage can take.
    pub open spec fn accepts(&self, e: LoopEvent) -> bool {
        match self.stage {
            Stage::Ready => e is Begin,
            Stage::ActBefore | Stage::ActAfter { .. } | Stage::ReviewBefore { .. } | Stage::ReviewAfter { .. } =>
                e matches LoopEvent::Snapshot(s) && s.wf(),
            Stage::Turn { sleeping, .. } => if sleeping {
                e is Slept
            } else {
                e is AgentReplied || e is AgentFailed
            },
            Stage::ActScope { changed, .. } => e matches LoopEvent::FilesRead(c) && c@.len() == changed@.len(),
            Stage::Commands { .. } => (e matches LoopEvent::CommandRan { output, .. } && tail_cut_ok(
                output@,
                OUTPUT_TAIL_BYTES as int,
            )) || e is CommandFailedToStart,
            Stage::Done => false,
        }
    }

    /// The stage waits for what `w` asks the caller to do.
    pub open spec fn awaits(&self, w: LoopWait) -> bool {
        match w {
            LoopWait::Snapshot => self.stage is ActBefore || self.stage is ActAfter || self.stage is ReviewBefore
                || self.stage is ReviewAfter,
            LoopWait::CallAgent(r) => self.stage matches Stage::Turn { request, sleeping, .. } && !sleeping
                && request@ == r@,
            LoopWait::Sleep(_) => self.stage matches Stage::Turn { sleeping, .. } && sleeping,
            LoopWait::ReadFiles(v) => self.stage matches Stage::ActScope { changed, .. } && changed.deep_view()
                == v.deep_view(),
            LoopWait::RunCommand(c) => self.stage matches Stage::Commands { next, .. } && next
                < self.request.validation.commands@.len() && self.request.validation.commands@[next as int]@ == c@,
            LoopWait::Finished(_) => self.stage is Done,
        }
    }

    pub fn new(
        capability: CapabilityKind,
        request: ImplementationRequest,
        texts: PromptTexts,
        settings: LoopSettings,
        working_dir: String,
        session_id: Option<String>,
        decision_suffix: Option<String>,
    ) -> (r: PhaseLoop)
        ensures
            r.stage is Ready,
            r.capability == capability,
            r.working_dir@ == working_dir@,
            opt_str(r.session_id) == opt_str(session_id),
            opt_str(r.decision_suffix) == opt_str(decision_suffix),
    {
        PhaseLoop {
            capability,
            request,
            texts,
            settings,
            working_dir,
            session_id,
            decision_suffix,
            stage: Stage::Ready,
        }
    }

    fn take_suffix(&mut self, user: &mut String)
        ensures
            final(user)@ == old(user)@ + suffix_text(old(self).decision_suffix),
            final(self).decision_suffix is None,
            final(self).stage == old(self).stage,
            final(self).request == old(self).request,
            final(self).capability == old(self).capability,
            final(self).settings == old(self).settings,
            final(self).working_dir == old(self).working_dir,
            final(self).session_id == old(self).session_id,
            final(self).texts == old(self).texts,
    {
        let mut suffix: Option<String> = None;
        std::mem::swap(&mut suffix, &mut self.decision_suffix);
        match suffix {
            Some(s) => push_str(user, s.as_str()),
            None => {
                assert(user@ =~= user@ + Seq::<char>::empty());
            },
        }
    }

    /// Logs the turn's start and builds its request.
    fn start_turn(
        &self,
        execution: &mut Execution,
        tools: Vec<String>,
        mode: PermissionMode,
        system_prompt: String,
        user_prompt: String,
    ) -> (r: AgentRequest)
        ensures
            r@.prompt == user_prompt@,
            r@.system_prompt == Some(system_prompt@),
            r@.working_directory == self.working_dir@,
            r@.tools == tools.deep_view(),
            r@.permission_mode == mode,
            r@.json_schema == Some(OutputSchema::Outcome),
            r@.model == opt_str(self.settings.model),
            r@.max_budget_usd == opt_str(self.settings.max_budget_usd),
            r@.resume_session_id == opt_str(self.session_id),
            r@.mcp_config == opt_str(self.settings.mcp_config),
            final(execution)@ == crate::domain::execution::recorded(
                old(execution)@,
                final(execution)@.messages.last(),
                final(execution)@.updated_at,
            ),
            final(execution)@.messages.last() is AgentStarted,
    {
        execution.record(ExecutionEvent::AgentStarted { at: now() });
        AgentRequest {
            prompt: user_prompt,
            system_prompt: Some(system_prompt),
            working_directory: self.working_dir.clone(),
            tools,
            model: crate::domain::execution::clone_opt_string(&self.settings.model),
            permission_mode: mode,
            json_schema: Some(OutputSchema::Outcome),
            max_budget_usd: crate::domain::execution::clone_opt_string(&self.settings.max_budget_usd),
            resume_session_id: crate::domain::execution::clone_opt_string(&self.session_id),
            mcp_config: crate::domain::execution::clone_opt_string(&self.settings.mcp_config),
        }
    }
}


/// The message a failed turn is reported with.
fn failure_line(detail: &str, on: bool) -> (r: String)
    ensures
        r@ == fail_line("status: failed — "@ + first_line(detail@), on),
{
    let d = status_detail("status: failed — ", detail);
    mark_notice("✗", Color::Red, d.as_str(), on)
}

fn concat2(a: &str, b: &str) -> (r: String)
    ensures
        r@ == a@ + b@,
{
    let mut r = copy_str(a);
    push_str(&mut r, b);
    r
}

fn concat3(a: &str, b: &str, c: &str) -> (r: String)
    ensures
        r@ == a@ + b@ + c@,
{
    let mut r = copy_str(a);
    push_str(&mut r, b);
    push_str(&mut r, c);
    r
}

impl PhaseLoop {
    /// Ends the loop.
    fn stop(&mut self, notices: Vec<String>, save: bool, result: Result<(), KsforgeError>) -> (r: LoopStep)
        ensures
            final(self).stage is Done,
            same_config(*old(self), *final(self)),
            final(self).session_id == old(self).session_id,
            final(self).decision_suffix == old(self).decision_suffix,
            r.wait == LoopWait::Finished(result),
            r.save == save,
    {
        self.stage = Stage::Done;
        LoopStep { notices, save, wait: LoopWait::Finished(result) }
    }

    /// Starts whatever phase the execution's workflow stands at.
    #[verifier::rlimit(40)]
    fn begin(&mut self, execution: &mut Execution, notices: Vec<String>, save: bool) -> (r: LoopStep)
        ensures
            final(self).inv(final(execution).workflow),
            final(self).awaits(r.wait),
            same_config(*old(self), *final(self)),
            wf(old(execution)@) ==> wf(final(execution)@),
            stopped_well(final(execution)@, r.wait),
            saved_if_changed(old(execution)@, final(execution)@, r),
            fresh_restated(*old(self), *final(self)),
            final(execution)@.agent_session_id == old(execution)@.agent_session_id,
            save ==> r.save,
            began(*old(self), old(execution)@, final(execution)@, final(self).stage, r.wait),
    {
        let mut notices = notices;
        let on = self.settings.color;
        if execution.workflow.is_legacy() {
            return self.stop(
                notices,
                save,
                Err(KsforgeError::Usage(copy_str(
                    "this execution predates the phase-based workflow; cancel it and re-run the capability instead",
                ))),
            );
        }
        match execution.workflow.phase() {
            crate::domain::workflow::Phase::Understand => {
                let (tools, mode) = tools_and_permission(ToolPolicy::ReadOnly);
                let inv = claude_invocation(&tools, mode, self.session_id.is_some());
                notices.push(header_notice("UNDERSTAND", inv.as_str(), on));
                let (system, mut user) = for_understand(&self.texts, self.capability, &self.request, self.working_dir.as_str());
                let ghost sfx = suffix_text(self.decision_suffix);
                self.take_suffix(&mut user);
                let request = self.start_turn(execution, tools, mode, system, user);
                self.stage = Stage::Turn {
                    kind: TurnKind::Understand,
                    request: request.clone(),
                    attempt: 1,
                    sleeping: false,
                    restated: Ghost(sfx),
                };
                LoopStep { notices, save: true, wait: LoopWait::CallAgent(request) }
            },
            crate::domain::workflow::Phase::Locate => {
                let (tools, mode) = tools_and_permission(ToolPolicy::ReadOnly);
                let inv = claude_invocation(&tools, mode, self.session_id.is_some());
                notices.push(header_notice("LOCATE", inv.as_str(), on));
                let (system, mut user) = match &execution.workflow {
                    WorkflowState::Locate { understanding } => for_locate(
                        &self.texts,
                        self.capability,
                        &self.request,
                        self.working_dir.as_str(),
                        understanding,
                    ),
                    _ => {
                        proof {
                            assert(false);
                        }
                        (String::new(), String::new())
                    },
                };
                let ghost sfx = suffix_text(self.decision_suffix);
                self.take_suffix(&mut user);
                let request = self.start_turn(execution, tools, mode, system, user);
                self.stage = Stage::Turn {
                    kind: TurnKind::Locate,
                    request: request.clone(),
                    attempt: 1,
                    sleeping: false,
                    restated: Ghost(sfx),
                };
                LoopStep { notices, save: true, wait: LoopWait::CallAgent(request) }
            },
            crate::domain::workflow::Phase::Act => {
                let (tools, mode) = tools_and_permission(self.capability.tool_policy());
                let inv = claude_invocation(&tools, mode, self.session_id.is_some());
                notices.push(header_notice("ACT", inv.as_str(), on));
                self.stage = Stage::ActBefore;
                LoopStep { notices, save, wait: LoopWait::Snapshot }
            },
            crate::domain::workflow::Phase::Validate => {
                let has_commands = self.request.validation.commands.len() > 0;
                if has_commands || self.request.validation.agent_review {
                    execution.record(ExecutionEvent::ValidationStarted { at: now() });
                }
                if has_commands {
                    notices.push(header_notice("VALIDATE", "host-only: run --validate against the real diff", on));
                    let first = self.request.validation.commands[0].clone();
                    notices.push(concat2("  running: ", first.as_str()));
                    self.stage = Stage::Commands { next: 0, outcomes: Vec::new() };
                    LoopStep { notices, save: true, wait: LoopWait::RunCommand(first) }
                } else {
                    let none: Vec<ValidationCommandOutcome> = Vec::new();
                    assert(none.deep_view() =~= Seq::<CommandView>::empty());
                    self.begin_review(execution, notices, true, none)
                }
            },
            crate::domain::workflow::Phase::Report => self.report(execution, notices),
        }
    }

    /// The agent-driven VALIDATE turn, when the policy asks for one;
    /// otherwise VALIDATE is done.
    fn begin_review(
        &mut self,
        execution: &mut Execution,
        notices: Vec<String>,
        save: bool,
        commands: Vec<ValidationCommandOutcome>,
    ) -> (r: LoopStep)
        requires
            old(execution).workflow@ is Validate,
        ensures
            final(self).inv(final(execution).workflow),
            final(self).awaits(r.wait),
            same_config(*old(self), *final(self)),
            wf(old(execution)@) ==> wf(final(execution)@),
            stopped_well(final(execution)@, r.wait),
            saved_if_changed(old(execution)@, final(execution)@, r),
            fresh_restated(*old(self), *final(self)),
            final(execution)@.agent_session_id == old(execution)@.agent_session_id,
            save ==> r.save,
            after_commands(
                *old(self),
                old(execution)@.workflow,
                commands.deep_view(),
                old(execution)@,
                final(execution)@,
                final(self).stage,
                r.wait,
                seq![],
            ),
    {
        let mut notices = notices;
        if self.request.validation.agent_review {
            let (tools, mode) = validate_tools_and_permission();
            let inv = claude_invocation(&tools, mode, self.session_id.is_some());
            notices.push(header_notice("VALIDATE", inv.as_str(), self.settings.color));
            self.stage = Stage::ReviewBefore { commands };
            LoopStep { notices, save, wait: LoopWait::Snapshot }
        } else {
            self.finish_validate(execution, notices, commands, None)
        }
    }

    /// VALIDATE passed: the outcome joins the workflow and REPORT runs.
    fn finish_validate(
        &mut self,
        execution: &mut Execution,
        notices: Vec<String>,
        commands: Vec<ValidationCommandOutcome>,
        review: Option<AgentValidationReport>,
    ) -> (r: LoopStep)
        requires
            old(execution).workflow@ is Validate,
        ensures
            final(self).inv(final(execution).workflow),
            final(self).awaits(r.wait),
            same_config(*old(self), *final(self)),
            wf(old(execution)@) ==> wf(final(execution)@),
            stopped_well(final(execution)@, r.wait),
            saved_if_changed(old(execution)@, final(execution)@, r),
            fresh_restated(*old(self), *final(self)),
            final(execution)@.agent_session_id == old(execution)@.agent_session_id,
            final(execution)@.workflow == validated(
                old(execution)@.workflow,
                ValidationView { passed: true, commands: commands.deep_view(), agent_review: opt_report(review) },
            ),
            reported_from(old(execution)@, final(execution)@),
            r.wait matches LoopWait::Finished(Ok(_)),
            appended(
                old(execution)@,
                final(execution)@,
                if commands.deep_view().len() > 0 || review is Some {
                    seq![Logged::ValidationPassed, Logged::Completed]
                } else {
                    seq![Logged::Completed]
                },
            ),
    {
        let ghost e0 = execution@;
        let ghost passed: Seq<Logged> = if commands.deep_view().len() > 0 || review is Some {
            seq![Logged::ValidationPassed]
        } else {
            seq![]
        };
        if commands.len() > 0 || review.is_some() {
            execution.record(ExecutionEvent::ValidationPassed { at: now() });
        }
        proof {
            assert(appended(e0, execution@, passed));
        }
        let validation = ValidationOutcome { passed: true, commands, agent_review: review };
        match execution.workflow.clone().complete_validate(validation) {
            Ok(next) => {
                execution.advance(next);
                let ghost e1 = execution@;
                let r = self.report(execution, notices);
                proof {
                    lemma_appended_trans(e0, e1, execution@, passed, seq![Logged::Completed]);
                    assert(passed + seq![Logged::Completed] =~= (if commands.deep_view().len() > 0 || review is Some {
                        seq![Logged::ValidationPassed, Logged::Completed]
                    } else {
                        seq![Logged::Completed]
                    }));
                }
                r
            },
            Err(_) => {
                proof {
                    assert(false);
                }
                self.stop(notices, true, Ok(()))
            },
        }
    }

    /// REPORT: the result is assembled from what ACT and VALIDATE
    /// established, and the execution completes.
    fn report(&mut self, execution: &mut Execution, notices: Vec<String>) -> (r: LoopStep)
        requires
            old(execution).workflow@ is Report,
        ensures
            final(self).inv(final(execution).workflow),
            final(self).awaits(r.wait),
            same_config(*old(self), *final(self)),
            wf(old(execution)@) ==> wf(final(execution)@),
            stopped_well(final(execution)@, r.wait),
            saved_if_changed(old(execution)@, final(execution)@, r),
            fresh_restated(*old(self), *final(self)),
            final(execution)@.agent_session_id == old(execution)@.agent_session_id,
            final(execution)@.workflow == old(execution)@.workflow,
            reported_from(old(execution)@, final(execution)@),
            r.wait matches LoopWait::Finished(Ok(_)),
            appended(old(execution)@, final(execution)@, seq![Logged::Completed]),
    {
        let mut notices = notices;
        let on = self.settings.color;
        notices.push(header_notice("REPORT", "host-only: ExecutionResult assembled host-side", on));
        let result = match &execution.workflow {
            WorkflowState::Report { action, validation, .. } => ExecutionResult {
                success: true,
                title: crate::domain::execution::clone_opt_string(&action.title),
                summary: action.summary.clone(),
                changed_files: crate::domain::execution::clone_strings(&action.changed_files),
                validation: validation.clone(),
                completed: crate::domain::execution::clone_strings(&action.completed),
                open_items: crate::domain::execution::clone_strings(&action.open_items),
                recommendation: crate::domain::execution::clone_opt_string(&action.recommendation),
            },
            _ => {
                proof {
                    assert(false);
                }
                return self.stop(notices, true, Ok(()));
            },
        };
        execution.complete(result);
        let line = concat3("Execution ", execution.id.0.as_str(), " completed");
        notices.push(mark_notice("✓", Color::Green, line.as_str(), on));
        self.stop(notices, true, Ok(()))
    }

    /// A turn that failed or asked what its capability cannot ask ends the
    /// execution as failed.
    fn fail_turn(&mut self, execution: &mut Execution, reason: &str) -> (r: LoopStep)
        ensures
            final(self).inv(final(execution).workflow),
            final(self).awaits(r.wait),
            same_config(*old(self), *final(self)),
            wf(old(execution)@) ==> wf(final(execution)@),
            stopped_well(final(execution)@, r.wait),
            saved_if_changed(old(execution)@, final(execution)@, r),
            fresh_restated(*old(self), *final(self)),
            final(execution)@.agent_session_id == old(execution)@.agent_session_id,
            failed_from(old(execution)@, final(execution)@, reason@),
            r.wait matches LoopWait::Finished(Ok(_)),
            appended(old(execution)@, final(execution)@, seq![Logged::Failed]),
    {
        let mut notices: Vec<String> = Vec::new();
        notices.push(failure_line(reason, self.settings.color));
        execution.fail(reason);
        self.stop(notices, true, Ok(()))
    }

    /// A completed turn's reply, read per phase.
    #[verifier::rlimit(40)]
    fn on_reply(&mut self, execution: &mut Execution, kind: TurnKind, reply: AgentReply) -> (r: LoopStep)
        requires
            phase_is(old(execution).workflow@, kind),
        ensures
            final(self).inv(final(execution).workflow),
            final(self).awaits(r.wait),
            same_config(*old(self), *final(self)),
            wf(old(execution)@) ==> wf(final(execution)@),
            stopped_well(final(execution)@, r.wait),
            saved_if_changed(old(execution)@, final(execution)@, r),
            fresh_restated(*old(self), *final(self)),
            reply.outcome is Err ==> r.wait matches LoopWait::Finished(Err(KsforgeError::ExecutorFailed(_))),
            reply.outcome is Err ==> kept(old(execution)@, final(execution)@) && final(execution)@.workflow
                == old(execution)@.workflow,
            final(execution)@.agent_session_id == (match reply.session_id {
                Some(s) => Some(s@),
                None => opt_str(old(self).session_id),
            }),
            reply.outcome matches Ok(o) ==> answered(
                *old(self),
                kind,
                old(execution)@,
                o@,
                final(execution)@,
                final(self).stage,
                r.wait,
            ),
            reply.outcome is Err ==> appended(old(execution)@, final(execution)@, seq![]),
    {
        match reply.session_id {
            Some(sid) => {
                self.session_id = Some(sid);
            },
            None => {},
        }
        execution.agent_session_id = crate::domain::execution::clone_opt_string(&self.session_id);
        let outcome = match reply.outcome {
            Err(detail) => {
                let m = concat2("agent produced output that could not be parsed: ", detail.as_str());
                return self.stop(Vec::new(), false, Err(KsforgeError::ExecutorFailed(m)));
            },
            Ok(o) => o,
        };
        let supports = self.capability.supports_human_interaction();
        match outcome.status {
            OutcomeStatus::WaitingForHuman => {
                if supports && outcome.options.len() == 0 {
                    let q = match &outcome.question {
                        Some(q) => q.clone(),
                        None => copy_str("(no question text)"),
                    };
                    let reason = concat2("agent asked a question without offering any options: ", q.as_str());
                    self.fail_turn(execution, reason.as_str())
                } else if supports {
                    let question = match outcome.question {
                        Some(q) => q,
                        None => copy_str("The coding agent needs a decision to continue."),
                    };
                    let mut notices: Vec<String> = Vec::new();
                    let d = status_detail("status: waiting_for_human — ", question.as_str());
                    notices.push(mark_notice("⏸", Color::Yellow, d.as_str(), self.settings.color));
                    let recommended = recommended_among(&outcome.options, outcome.recommended_option);
                    let context = match outcome.recommendation {
                        Some(c) => c,
                        None => String::new(),
                    };
                    let _gate = execution.ask(question, outcome.options, recommended, context, outcome.completed);
                    self.stop(notices, true, Ok(()))
                } else {
                    let q = match &outcome.question {
                        Some(q) => q.clone(),
                        None => String::new(),
                    };
                    let reason = concat3(
                        self.capability.id(),
                        " does not support human-in-the-loop decisions, but the agent asked one: ",
                        q.as_str(),
                    );
                    self.fail_turn(execution, reason.as_str())
                }
            },
            OutcomeStatus::Failed => {
                let reason = match outcome.failure_reason {
                    Some(r) => r,
                    None => outcome.summary,
                };
                self.fail_turn(execution, reason.as_str())
            },
            OutcomeStatus::Completed => match kind {
                TurnKind::Understand => self.finish_understand(execution, outcome),
                TurnKind::Locate => self.finish_locate(execution, outcome),
                TurnKind::Act { before } => {
                    self.stage = Stage::ActAfter { before, outcome };
                    LoopStep { notices: Vec::new(), save: true, wait: LoopWait::Snapshot }
                },
                TurnKind::Review { commands, before } => {
                    self.stage = Stage::ReviewAfter { commands, before, outcome };
                    LoopStep { notices: Vec::new(), save: true, wait: LoopWait::Snapshot }
                },
            },
        }
    }

    fn finish_understand(&mut self, execution: &mut Execution, outcome: AgentOutcome) -> (r: LoopStep)
        requires
            old(execution).workflow@ is Understand,
        ensures
            final(self).inv(final(execution).workflow),
            final(self).awaits(r.wait),
            same_config(*old(self), *final(self)),
            wf(old(execution)@) ==> wf(final(execution)@),
            stopped_well(final(execution)@, r.wait),
            saved_if_changed(old(execution)@, final(execution)@, r),
            fresh_restated(*old(self), *final(self)),
            final(execution)@.agent_session_id == old(execution)@.agent_session_id,
            final(execution)@.workflow == (WorkflowView::Locate { understanding: understood(outcome@) }),
            kept(old(execution)@, final(execution)@),
            r.wait is CallAgent,
            final(self).stage matches Stage::Turn { kind: TurnKind::Locate, .. },
            appended(old(execution)@, final(execution)@, seq![Logged::AgentStarted]),
    {
        let mut notices: Vec<String> = Vec::new();
        let d = status_detail("status: completed — ", outcome.summary.as_str());
        notices.push(mark_notice("✓", Color::Green, d.as_str(), self.settings.color));
        let understanding = Understanding { summary: outcome.summary, scope: outcome.scope };
        match execution.workflow.clone().complete_understand(understanding) {
            Ok(next) => {
                execution.advance(next);
                self.begin(execution, notices, true)
            },
            Err(_) => {
                proof {
                    assert(false);
                }
                self.stop(notices, true, Ok(()))
            },
        }
    }

    fn finish_locate(&mut self, execution: &mut Execution, outcome: AgentOutcome) -> (r: LoopStep)
        requires
            old(execution).workflow@ is Locate,
        ensures
            final(self).inv(final(execution).workflow),
            final(self).awaits(r.wait),
            same_config(*old(self), *final(self)),
            wf(old(execution)@) ==> wf(final(execution)@),
            stopped_well(final(execution)@, r.wait),
            saved_if_changed(old(execution)@, final(execution)@, r),
            fresh_restated(*old(self), *final(self)),
            final(execution)@.agent_session_id == old(execution)@.agent_session_id,
            old(execution)@.workflow matches WorkflowView::Locate { understanding } && final(execution)@.workflow
                == (WorkflowView::Act { understanding, located: located_of(outcome@) }),
            kept(old(execution)@, final(execution)@),
            r.wait is Snapshot,
            final(self).stage is ActBefore,
            appended(old(execution)@, final(execution)@, seq![]),
    {
        let mut notices: Vec<String> = Vec::new();
        let n = decimal_string(outcome.relevant_files.len() as u64);
        let d = concat3("status: completed — ", n.as_str(), " relevant file(s)");
        notices.push(mark_notice("✓", Color::Green, d.as_str(), self.settings.color));
        let located = LocatedContext {
            relevant_files: outcome.relevant_files,
            existing_abstractions: outcome.existing_abstractions,
            existing_tests: outcome.existing_tests,
            conventions: outcome.conventions,
        };
        match execution.workflow.clone().complete_locate(located) {
            Ok(next) => {
                execution.advance(next);
                self.begin(execution, notices, true)
            },
            Err(_) => {
                proof {
                    assert(false);
                }
                self.stop(notices, true, Ok(()))
            },
        }
    }

    /// ACT's turn, once the tree has been snapshotted.
    fn act_turn(&mut self, execution: &mut Execution, before: Snapshot) -> (r: LoopStep)
        requires
            old(execution).workflow@ is Act,
            before.wf(),
        ensures
            final(self).inv(final(execution).workflow),
            final(self).awaits(r.wait),
            same_config(*old(self), *final(self)),
            wf(old(execution)@) ==> wf(final(execution)@),
            stopped_well(final(execution)@, r.wait),
            saved_if_changed(old(execution)@, final(execution)@, r),
            fresh_restated(*old(self), *final(self)),
            final(execution)@.agent_session_id == old(execution)@.agent_session_id,
            kept(old(execution)@, final(execution)@),
            final(execution)@.workflow == old(execution)@.workflow,
            r.wait is CallAgent,
            appended(old(execution)@, final(execution)@, seq![Logged::AgentStarted]),
            final(self).stage matches Stage::Turn { kind: TurnKind::Act { before: b }, .. } && b == before,
    {
        let (tools, mode) = tools_and_permission(self.capability.tool_policy());
        let (system, mut user) = match &execution.workflow {
            WorkflowState::Act { understanding, located } => for_act(
                &self.texts,
                self.capability,
                &self.request,
                self.working_dir.as_str(),
                understanding,
                located,
            ),
            _ => {
                proof {
                    assert(false);
                }
                (String::new(), String::new())
            },
        };
        let ghost sfx = suffix_text(self.decision_suffix);
        self.take_suffix(&mut user);
        let request = self.start_turn(execution, tools, mode, system, user);
        self.stage = Stage::Turn {
            kind: TurnKind::Act { before },
            request: request.clone(),
            attempt: 1,
            sleeping: false,
            restated: Ghost(sfx),
        };
        LoopStep { notices: Vec::new(), save: true, wait: LoopWait::CallAgent(request) }
    }

    /// ACT's turn completed: what changed is read off the snapshots.
    fn act_after(&mut self, execution: &mut Execution, before: Snapshot, after: Snapshot, outcome: AgentOutcome) -> (r: LoopStep)
        requires
            old(execution).workflow@ is Act,
            before.wf(),
            after.wf(),
        ensures
            final(self).inv(final(execution).workflow),
            final(self).awaits(r.wait),
            same_config(*old(self), *final(self)),
            wf(old(execution)@) ==> wf(final(execution)@),
            stopped_well(final(execution)@, r.wait),
            saved_if_changed(old(execution)@, final(execution)@, r),
            fresh_restated(*old(self), *final(self)),
            final(execution)@.agent_session_id == old(execution)@.agent_session_id,
            act_snapshotted(
                *old(self),
                old(execution)@,
                before@,
                after@,
                outcome@,
                final(execution)@,
                final(self).stage,
                r.wait,
            ),
    {
        let changed = changed_files(&before, &after);
        let ghost cv = changed.deep_view();
        assert(lists_changes(before@, after@, cv));
        match self.capability.change_scope() {
            Some(ChangeScope::TestsOnly) => {
                let files = crate::domain::execution::clone_strings(&changed);
                self.stage = Stage::ActScope { changed, outcome };
                LoopStep { notices: Vec::new(), save: false, wait: LoopWait::ReadFiles(files) }
            },
            None => {
                let r = self.finish_act(execution, Vec::new(), outcome, changed);
                assert(lists_changes(before@, after@, cv) && began_validate(
                    *old(self),
                    acted(old(execution)@.workflow, action_of(old(self).capability, outcome@, cv)),
                    old(execution)@,
                    execution@,
                    self.stage,
                    r.wait,
                ));
                r
            },
        }
    }

    /// The tests-only scope check, once the changed files' contents are
    /// known.
    fn act_scope(&mut self, execution: &mut Execution, changed: Vec<String>, outcome: AgentOutcome, contents: Vec<String>) -> (r: LoopStep)
        requires
            old(execution).workflow@ is Act,
            changed@.len() == contents@.len(),
        ensures
            final(self).inv(final(execution).workflow),
            final(self).awaits(r.wait),
            same_config(*old(self), *final(self)),
            wf(old(execution)@) ==> wf(final(execution)@),
            stopped_well(final(execution)@, r.wait),
            saved_if_changed(old(execution)@, final(execution)@, r),
            fresh_restated(*old(self), *final(self)),
            final(execution)@.agent_session_id == old(execution)@.agent_session_id,
            act_checked(
                *old(self),
                old(execution)@,
                outcome@,
                changed.deep_view(),
                contents.deep_view(),
                final(execution)@,
                final(self).stage,
                r.wait,
            ),
    {
        let outside = violations(&changed, &contents);
        if outside.len() > 0 {
            let paths = join_strings(outside.as_slice(), ", ");
            let mut notices: Vec<String> = Vec::new();
            let d = concat2("status: failed — touched files outside scope: ", paths.as_str());
            notices.push(mark_notice("✗", Color::Red, d.as_str(), self.settings.color));
            let mut detail = concat3("`", self.capability.id(), "` may only touch test files, but changed: ");
            push_str(&mut detail, paths.as_str());
            proof {
                assert(crate::text::views(outside@) =~= outside.deep_view());
                assert(detail@ =~= scope_refusal(self.capability, outside.deep_view()));
            }
            execution.fail(detail.as_str());
            self.stop(notices, true, Ok(()))
        } else {
            self.finish_act(execution, Vec::new(), outcome, changed)
        }
    }

    /// ACT is done: its result joins the workflow and VALIDATE starts.
    fn finish_act(&mut self, execution: &mut Execution, notices: Vec<String>, outcome: AgentOutcome, changed: Vec<String>) -> (r: LoopStep)
        requires
            old(execution).workflow@ is Act,
        ensures
            final(self).inv(final(execution).workflow),
            final(self).awaits(r.wait),
            same_config(*old(self), *final(self)),
            wf(old(execution)@) ==> wf(final(execution)@),
            stopped_well(final(execution)@, r.wait),
            saved_if_changed(old(execution)@, final(execution)@, r),
            fresh_restated(*old(self), *final(self)),
            final(execution)@.agent_session_id == old(execution)@.agent_session_id,
            began_validate(
                *old(self),
                acted(old(execution)@.workflow, action_of(old(self).capability, outcome@, changed.deep_view())),
                old(execution)@,
                final(execution)@,
                final(self).stage,
                r.wait,
            ),
    {
        let mut notices = notices;
        let kind = ActionKind::derive(self.capability.id(), changed.len() == 0);
        let n = decimal_string(changed.len() as u64);
        let d = concat3(
            "status: completed — ",
            n.as_str(),
            " file(s) changed (filesystem diff, not the agent's own report)",
        );
        notices.push(mark_notice("✓", Color::Green, d.as_str(), self.settings.color));
        let action = ActionResult {
            kind,
            title: outcome.title,
            summary: outcome.summary,
            changed_files: changed,
            completed: outcome.completed,
            open_items: outcome.open_items,
            recommendation: outcome.recommendation,
        };
        match execution.workflow.clone().complete_act(action) {
            Ok(next) => {
                execution.advance(next);
                self.begin(execution, notices, true)
            },
            Err(_) => {
                proof {
                    assert(false);
                }
                self.stop(notices, true, Ok(()))
            },
        }
    }

    /// A validation command finished.
    fn command_ran(
        &mut self,
        execution: &mut Execution,
        next: usize,
        outcomes: Vec<ValidationCommandOutcome>,
        success: bool,
        output: String,
    ) -> (r: LoopStep)
        requires
            old(execution).workflow@ is Validate,
            next < old(self).request.validation.commands@.len(),
            tail_cut_ok(output@, OUTPUT_TAIL_BYTES as int),
        ensures
            final(self).inv(final(execution).workflow),
            final(self).awaits(r.wait),
            same_config(*old(self), *final(self)),
            wf(old(execution)@) ==> wf(final(execution)@),
            stopped_well(final(execution)@, r.wait),
            saved_if_changed(old(execution)@, final(execution)@, r),
            fresh_restated(*old(self), *final(self)),
            final(execution)@.agent_session_id == old(execution)@.agent_session_id,
            command_checked(
                *old(self),
                old(execution)@,
                next as int,
                outcomes.deep_view(),
                success,
                output@,
                final(execution)@,
                final(self).stage,
                r.wait,
            ),
    {
        let mut outcomes = outcomes;
        let command = self.request.validation.commands[next].clone();
        let mut notices: Vec<String> = Vec::new();
        if success {
            notices.push(concat2("  ✓ ", command.as_str()));
        } else {
            notices.push(concat2("  ✗ ", command.as_str()));
        }
        let ghost os0 = outcomes.deep_view();
        let co = command_outcome(command.as_str(), success, output.as_str());
        let ghost cv = co.deep_view();
        outcomes.push(co);
        proof {
            assert(outcomes.deep_view() =~= os0.push(cv));
        }
        if !success {
            let detail = concat3("`", command.as_str(), "` failed");
            execution.record(ExecutionEvent::ValidationFailed { detail: detail.clone(), at: now() });
            let ghost m1 = execution@.messages;
            execution.fail(detail.as_str());
            proof {
                assert(execution@.messages == m1.push(execution@.messages.last()));
                assert(execution@.messages[execution@.messages.len() - 2] == m1.last());
            }
            return self.stop(notices, true, Ok(()));
        }
        let total = self.request.validation.commands.len();
        assert(next < total);
        if next + 1 < total {
            let following = self.request.validation.commands[next + 1].clone();
            notices.push(concat2("  running: ", following.as_str()));
            self.stage = Stage::Commands { next: next + 1, outcomes };
            LoopStep { notices, save: false, wait: LoopWait::RunCommand(following) }
        } else {
            self.begin_review(execution, notices, false, outcomes)
        }
    }

    /// VALIDATE's agent turn, once the tree has been snapshotted.
    fn review_turn(&mut self, execution: &mut Execution, commands: Vec<ValidationCommandOutcome>, before: Snapshot) -> (r: LoopStep)
        requires
            old(execution).workflow@ is Validate,
            before.wf(),
        ensures
            final(self).inv(final(execution).workflow),
            final(self).awaits(r.wait),
            same_config(*old(self), *final(self)),
            wf(old(execution)@) ==> wf(final(execution)@),
            stopped_well(final(execution)@, r.wait),
            saved_if_changed(old(execution)@, final(execution)@, r),
            fresh_restated(*old(self), *final(self)),
            final(execution)@.agent_session_id == old(execution)@.agent_session_id,
            kept(old(execution)@, final(execution)@),
            final(execution)@.workflow == old(execution)@.workflow,
            r.wait is CallAgent,
            appended(old(execution)@, final(execution)@, seq![Logged::AgentStarted]),
            final(self).stage matches Stage::Turn { kind: TurnKind::Review { commands: c, before: b }, .. }
                && c.deep_view() == commands.deep_view() && b == before,
    {
        let (tools, mode) = validate_tools_and_permission();
        let (system, mut user) = match &execution.workflow {
            WorkflowState::Validate { understanding, action, .. } => for_validate(
                &self.texts,
                self.capability,
                &self.request,
                self.working_dir.as_str(),
                understanding,
                action,
            ),
            _ => {
                proof {
                    assert(false);
                }
                (String::new(), String::new())
            },
        };
        let ghost sfx = suffix_text(self.decision_suffix);
        self.take_suffix(&mut user);
        let request = self.start_turn(execution, tools, mode, system, user);
        self.stage = Stage::Turn {
            kind: TurnKind::Review { commands, before },
            request: request.clone(),
            attempt: 1,
            sleeping: false,
            restated: Ghost(sfx),
        };
        LoopStep { notices: Vec::new(), save: true, wait: LoopWait::CallAgent(request) }
    }

    /// VALIDATE's agent turn completed: it must not have changed anything.
    fn review_after(
        &mut self,
        execution: &mut Execution,
        commands: Vec<ValidationCommandOutcome>,
        before: Snapshot,
        after: Snapshot,
        outcome: AgentOutcome,
    ) -> (r: LoopStep)
        requires
            old(execution).workflow@ is Validate,
            before.wf(),
            after.wf(),
        ensures
            final(self).inv(final(execution).workflow),
            final(self).awaits(r.wait),
            same_config(*old(self), *final(self)),
            wf(old(execution)@) ==> wf(final(execution)@),
            stopped_well(final(execution)@, r.wait),
            saved_if_changed(old(execution)@, final(execution)@, r),
            fresh_restated(*old(self), *final(self)),
            final(execution)@.agent_session_id == old(execution)@.agent_session_id,
            review_checked(
                *old(self),
                old(execution)@,
                commands.deep_view(),
                before@,
                after@,
                outcome@,
                final(execution)@,
                r.wait,
            ),
    {
        let touched = changed_files(&before, &after);
        let ghost tv = touched.deep_view();
        let ghost o = outcome@;
        let ghost cmds = commands.deep_view();
        let ghost e0 = execution@;
        assert(lists_changes(before@, after@, tv));
        let on = self.settings.color;
        if touched.len() > 0 {
            let paths = join_strings(touched.as_slice(), ", ");
            proof {
                assert(crate::text::views(touched@) =~= tv);
            }
            let detail = concat2("validate must not modify the workspace, but changed: ", paths.as_str());
            let mut notices: Vec<String> = Vec::new();
            let d = concat2("status: failed — ", detail.as_str());
            notices.push(mark_notice("✗", Color::Red, d.as_str(), on));
            execution.record(ExecutionEvent::ValidationFailed { detail: detail.clone(), at: now() });
            execution.fail(detail.as_str());
            let r = self.stop(notices, true, Ok(()));
            assert(lists_changes(before@, after@, tv) && failed_with(
                execution@,
                e0.workflow,
                "validate must not modify the workspace, but changed: "@ + join(tv, ", "@),
            ));
            return r;
        }
        let mut notices: Vec<String> = Vec::new();
        let d = status_detail("status: completed — ", outcome.summary.as_str());
        notices.push(mark_notice("✓", Color::Green, d.as_str(), on));
        let review = AgentValidationReport {
            summary: outcome.summary,
            completed: outcome.completed,
            open_items: outcome.open_items,
            recommendation: outcome.recommendation,
        };
        assert(review@ == review_of(o));
        let r = self.finish_validate(execution, notices, commands, Some(review));
        assert(tv.len() == 0 && lists_changes(before@, after@, tv));
        assert(execution@.workflow == validated(
            e0.workflow,
            ValidationView { passed: true, commands: cmds, agent_review: Some(review_of(o)) },
        ));
        r
    }

    /// A turn's call failed: retried after a pause when the failure is
    /// transient and attempts remain, otherwise the loop ends with the
    /// failure.
    fn agent_failed(
        &mut self,
        kind: TurnKind,
        request: AgentRequest,
        attempt: u32,
        restated: Ghost<Seq<char>>,
        e: AgentError,
    ) -> (r: LoopStep)
        requires
            1 <= attempt <= MAX_ATTEMPTS,
        ensures
            same_config(*old(self), *final(self)),
            final(self).session_id == old(self).session_id,
            final(self).decision_suffix == old(self).decision_suffix,
            retries(attempt as nat, e) ==> final(self).stage == (Stage::Turn {
                kind,
                request,
                attempt,
                sleeping: true,
                restated,
            })
                && r.wait == LoopWait::Sleep(retry_delay(attempt as nat) as u64) && !r.save,
            !retries(attempt as nat, e) ==> final(self).stage is Done && !r.save && (r.wait matches LoopWait::Finished(
                Err(KsforgeError::ExecutorFailed(_)),
            )),
            !retries(attempt as nat, e) ==> failure_reported(old(self).capability, e, r.wait),
    {
        let message = e.message();
        if attempt < MAX_ATTEMPTS && e.is_transient() {
            let delay = delay_for(attempt);
            let mut text = copy_str("[ksforge] transient executor error, retrying in ");
            let ds = decimal_string(delay);
            push_str(&mut text, ds.as_str());
            push_str(&mut text, "s (attempt ");
            let a = decimal_string(attempt as u64 + 1);
            push_str(&mut text, a.as_str());
            push_str(&mut text, " of 3): ");
            push_str(&mut text, message.as_str());
            let painted_text = paint(text.as_str(), Color::Yellow, false, self.settings.color);
            let mut notices: Vec<String> = Vec::new();
            notices.push(concat2("  ", painted_text.as_str()));
            self.stage = Stage::Turn { kind, request, attempt, sleeping: true, restated };
            LoopStep { notices, save: false, wait: LoopWait::Sleep(delay) }
        } else {
            let mut text = message.clone();
            push_str(&mut text, " (");
            push_str(&mut text, self.capability.id());
            push_str(&mut text, " capability): ");
            push_str(&mut text, message.as_str());
            proof {
                assert(text@ =~= executor_failure(message@, self.capability));
                assert(message_of(e, message@));
            }
            self.stop(Vec::new(), false, Err(KsforgeError::ExecutorFailed(text)))
        }
    }
}

/// The recommended option, kept only when it names one of the options on
/// offer: a recommendation no option matches is not trustworthy.
pub open spec fn kept_recommendation(options: Seq<crate::domain::execution::OptionView>, rec: Option<Seq<char>>) -> Option<Seq<char>> {
    match rec {
        Some(r) => if exists|i: int| 0 <= i < options.len() && options[i].id == r {
            Some(r)
        } else {
            None
        },
        None => None,
    }
}

pub fn recommended_among(options: &Vec<DecisionOption>, rec: Option<String>) -> (r: Option<String>)
    ensures
        opt_str(r) == kept_recommendation(options.deep_view(), opt_str(rec)),
{
    match rec {
        Some(id) => {
            let mut i: usize = 0;
            while i < options.len()
                invariant
                    i <= options@.len(),
                    opt_str(rec) == Some(id@),
                    forall|j: int| 0 <= j < i ==> (#[trigger] options.deep_view()[j]).id != id@,
                decreases options@.len() - i,
            {
                if crate::text::str_eq(options[i].id.as_str(), id.as_str()) {
                    proof {
                        assert(options.deep_view().len() == options@.len());
                        assert(options.deep_view()[i as int] == options@[i as int]@);
                        assert(options.deep_view()[i as int].id == id@);
                        assert(exists|k: int| 0 <= k < options.deep_view().len() && options.deep_view()[k].id == id@);
                    }
                    return Some(id);
                }
                i = i + 1;
            }
            None
        },
        None => None,
    }
}


impl PhaseLoop {
    /// Takes what the last piece of outside work came to and returns the
    /// next: the progress lines to print, whether to persist the
    /// execution, and what to do next. The loop drives the workflow from
    /// wherever it stands to REPORT, or to a pause or failure: each agent
    /// phase's turn ends as a decision gate, a failure, or a completed
    /// phase whose output joins the workflow before the next phase starts
    /// (see [`stepped`] for each stage and event).
    #[verifier::rlimit(40)]
    pub fn step(&mut self, execution: &mut Execution, event: LoopEvent) -> (r: LoopStep)
        requires
            old(self).inv(old(execution).workflow),
            old(self).accepts(event),
        ensures
            final(self).inv(final(execution).workflow),
            final(self).awaits(r.wait),
            same_config(*old(self), *final(self)),
            wf(old(execution)@) ==> wf(final(execution)@),
            stopped_well(final(execution)@, r.wait),
            stepped(*old(self), old(execution)@, event, *final(self), final(execution)@, r.wait),
            saved_if_changed(old(execution)@, final(execution)@, r),
            restated_ok(*old(self), event, *final(self)),
            old(self).stage matches Stage::Turn { attempt, .. } ==> (event is Slept ==> (final(self).stage matches Stage::Turn {
                attempt: a,
                sleeping: s,
                ..
            } && a == attempt + 1 && !s)),
            old(self).stage matches Stage::Turn { attempt, .. } ==> (event matches LoopEvent::AgentFailed(e) ==> (
            retries(attempt as nat, e) ==> r.wait == LoopWait::Sleep(retry_delay(attempt as nat) as u64)
                && final(execution)@ == old(execution)@ && !r.save) && (!retries(attempt as nat, e)
                ==> r.wait matches LoopWait::Finished(Err(KsforgeError::ExecutorFailed(_))))),
            old(self).stage matches Stage::Turn { request, .. } ==> (event is Slept ==> (r.wait matches LoopWait::CallAgent(
                q,
            ) && q@ == request@ && final(execution)@ == old(execution)@)),
            old(self).stage is Turn ==> (event matches LoopEvent::AgentReplied(reply) ==> (reply.outcome is Err
                ==> r.wait matches LoopWait::Finished(Err(KsforgeError::ExecutorFailed(_))))),
    {
        let mut stage = Stage::Done;
        std::mem::swap(&mut stage, &mut self.stage);
        match stage {
            Stage::Ready => self.begin(execution, Vec::new(), false),
            Stage::ActBefore => match event {
                LoopEvent::Snapshot(before) => self.act_turn(execution, before),
                _ => {
                    proof {
                        assert(false);
                    }
                    self.stop(Vec::new(), false, Ok(()))
                },
            },
            Stage::Turn { kind, request, attempt, sleeping, restated } => match event {
                LoopEvent::AgentReplied(reply) => self.on_reply(execution, kind, reply),
                LoopEvent::AgentFailed(e) => self.agent_failed(kind, request, attempt, restated, e),
                LoopEvent::Slept => {
                    let again = request.clone();
                    self.stage = Stage::Turn { kind, request, attempt: attempt + 1, sleeping: false, restated };
                    LoopStep { notices: Vec::new(), save: false, wait: LoopWait::CallAgent(again) }
                },
                _ => {
                    proof {
                        assert(false);
                    }
                    self.stop(Vec::new(), false, Ok(()))
                },
            },
            Stage::ActAfter { before, outcome } => match event {
                LoopEvent::Snapshot(after) => self.act_after(execution, before, after, outcome),
                _ => {
                    proof {
                        assert(false);
                    }
                    self.stop(Vec::new(), false, Ok(()))
                },
            },
            Stage::ActScope { changed, outcome } => match event {
                LoopEvent::FilesRead(contents) => self.act_scope(execution, changed, outcome, contents),
                _ => {
                    proof {
                        assert(false);
                    }
                    self.stop(Vec::new(), false, Ok(()))
                },
            },
            Stage::Commands { next, outcomes } => match event {
                LoopEvent::CommandRan { success, output } => self.command_ran(execution, next, outcomes, success, output),
                LoopEvent::CommandFailedToStart(err) => {
                    let mut m = concat3("failed to run `", self.request.validation.commands[next].as_str(), "`: ");
                    push_str(&mut m, err.as_str());
                    self.stop(Vec::new(), false, Err(KsforgeError::ValidationFailed(m)))
                },
                _ => {
                    proof {
                        assert(false);
                    }
                    self.stop(Vec::new(), false, Ok(()))
                },
            },
            Stage::ReviewBefore { commands } => match event {
                LoopEvent::Snapshot(before) => self.review_turn(execution, commands, before),
                _ => {
                    proof {
                        assert(false);
                    }
                    self.stop(Vec::new(), false, Ok(()))
                },
            },
            Stage::ReviewAfter { commands, before, outcome } => match event {
                LoopEvent::Snapshot(after) => self.review_after(execution, commands, before, after, outcome),
                _ => {
                    proof {
                        assert(false);
                    }
                    self.stop(Vec::new(), false, Ok(()))
                },
            },
            Stage::Done => {
                proof {
                    assert(false);
                }
                self.stop(Vec::new(), false, Ok(()))
            },
        }
    }
}

// ---------------------------------------------------------------------
// Laws
// ---------------------------------------------------------------------

/// Least privilege, decided here and never by the model: a turn may
/// accept edits exactly when it is the ACT turn of a capability whose
/// tool policy writes; UNDERSTAND and LOCATE get only Read/Grep/Glob,
/// VALIDATE may execute but never edit, and a read-only capability's ACT
/// turn is as read-only as its first two phases.
pub proof fn lemma_edits_only_where_the_capability_writes(l: PhaseLoop, kind: TurnKind)
    ensures
        (l.turn_scope(kind).1 == PermissionMode::AcceptEdits) <==> (kind is Act && capability_tool_policy(
            l.capability,
        ) == ToolPolicy::ReadWrite),
        !(kind is Act) ==> l.turn_scope(kind).1 != PermissionMode::AcceptEdits,
        capability_tool_policy(l.capability) == ToolPolicy::ReadOnly ==> l.turn_scope(kind).0.len() > 0,
{
}

/// Every agent request the loop hands out carries its turn's scope: when
/// the loop waits on an agent call, that request accepts edits only if
/// the capability writes and the turn is its ACT turn.
pub proof fn lemma_requests_carry_their_scope(l: PhaseLoop, w: WorkflowState, r: AgentRequest)
    requires
        l.inv(w),
        l.awaits(LoopWait::CallAgent(r)),
    ensures
        r@.permission_mode == PermissionMode::AcceptEdits ==> capability_tool_policy(l.capability)
            == ToolPolicy::ReadWrite && w@ is Act,
        capability_tool_policy(l.capability) == ToolPolicy::ReadOnly ==> r@.permission_mode
            != PermissionMode::AcceptEdits,
{
}

} // verus!
