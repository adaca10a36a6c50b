//! The durable unit of orchestration work: an `Execution` carrying a change
//! request through a capability, its append-only event log, and the human
//! decision gates raised along the way.
use vstd::prelude::*;

use super::change_request::ChangeRequest;
use super::workflow::{WorkflowState, WorkflowView};
use crate::text::{copy_str, push_str};

verus! {

// ---------------------------------------------------------------------
// Time and identifiers
// ---------------------------------------------------------------------

/// A UTC instant: whole seconds since the Unix epoch (negative before it)
/// plus the nanoseconds past that second.
#[derive(Clone, Copy, Debug, PartialEq, Eq, Hash)]
pub struct Timestamp {
    pub secs: i64,
    pub nanos: u32,
}

#[verifier::external_type_specification]
#[verifier::external_body]
pub struct ExSystemTime(std::time::SystemTime);

/// `std::time::SystemTime::now()`. The clock decides; nothing is claimed.
#[verifier::external_body]
fn system_now() -> (r: std::time::SystemTime) {
    std::time::SystemTime::now()
}

/// `SystemTime::duration_since(UNIX_EPOCH)`: `Ok` with how far after the
/// epoch `t` lies, or `Err` with how far before it (the error's
/// `duration`), each as whole seconds and the nanoseconds past them, which
/// std documents as always under one billion.
#[verifier::external_body]
fn offset_from_epoch(t: &std::time::SystemTime) -> (r: Result<(u64, u32), (u64, u32)>)
    ensures
        match r {
            Ok((_, n)) => n < 1_000_000_000,
            Err((_, n)) => n < 1_000_000_000,
        },
{
    match t.duration_since(std::time::UNIX_EPOCH) {
        Ok(d) => Ok((d.as_secs(), d.subsec_nanos())),
        Err(e) => Err((e.duration().as_secs(), e.duration().subsec_nanos())),
    }
}

/// The instant `secs` seconds and `nanos` nanoseconds after the epoch
/// (`after`) or before it. An offset beyond what `i64` seconds can hold
/// (hundreds of billions of years) is held at the nearest end of the range.
pub open spec fn timestamp_of(after: bool, secs: u64, nanos: u32) -> Timestamp {
    if after {
        if secs <= i64::MAX {
            Timestamp { secs: secs as i64, nanos }
        } else {
            Timestamp { secs: i64::MAX, nanos: 999_999_999 }
        }
    } else if nanos == 0 {
        if secs <= i64::MAX {
            Timestamp { secs: (0 - secs) as i64, nanos: 0 }
        } else {
            Timestamp { secs: i64::MIN, nanos: 0 }
        }
    } else if secs < i64::MAX {
        Timestamp { secs: (0 - secs - 1) as i64, nanos: (1_000_000_000 - nanos) as u32 }
    } else {
        Timestamp { secs: i64::MIN, nanos: 0 }
    }
}

pub fn timestamp_from_offset(after: bool, secs: u64, nanos: u32) -> (r: Timestamp)
    requires
        nanos < 1_000_000_000,
    ensures
        r == timestamp_of(after, secs, nanos),
        r.nanos < 1_000_000_000,
{
    let max: u64 = 9_223_372_036_854_775_807;
    if after {
        if secs <= max {
            Timestamp { secs: secs as i64, nanos }
        } else {
            Timestamp { secs: i64::MAX, nanos: 999_999_999 }
        }
    } else if nanos == 0 {
        if secs <= max {
            Timestamp { secs: 0 - (secs as i64), nanos: 0 }
        } else {
            Timestamp { secs: i64::MIN, nanos: 0 }
        }
    } else if secs < max {
        Timestamp { secs: 0 - (secs as i64) - 1, nanos: 1_000_000_000 - nanos }
    } else {
        Timestamp { secs: i64::MIN, nanos: 0 }
    }
}

/// The current instant, read off the system clock, also when the clock
/// stands before 1970. Which instant that is the clock decides.
pub fn now() -> (r: Timestamp)
    ensures
        r.nanos < 1_000_000_000,
{
    let t = system_now();
    match offset_from_epoch(&t) {
        Ok((s, n)) => timestamp_from_offset(true, s, n),
        Err((s, n)) => timestamp_from_offset(false, s, n),
    }
}

/// Whether `t` is strictly earlier than `u`.
pub open spec fn earlier(t: Timestamp, u: Timestamp) -> bool {
    t.secs < u.secs || (t.secs == u.secs && t.nanos < u.nanos)
}

impl Timestamp {
    pub fn is_earlier_than(&self, other: &Timestamp) -> (r: bool)
        ensures
            r == earlier(*self, *other),
    {
        self.secs < other.secs || (self.secs == other.secs && self.nanos < other.nanos)
    }
}

pub open spec fn is_lower_hex(c: char) -> bool {
    ('0' <= c <= '9') || ('a' <= c <= 'f')
}

/// Exactly 32 lower-case hexadecimal digits: the "simple" UUID format.
pub open spec fn is_simple_uuid(s: Seq<char>) -> bool {
    s.len() == 32 && forall|i: int| 0 <= i < 32 ==> is_lower_hex(#[trigger] s[i])
}

/// `uuid::Uuid::new_v4().simple().to_string()`. Claims the documented
/// shape of the simple format, 32 lower-case hex digits; the value itself
/// is random.
#[verifier::external_body]
pub fn new_simple_uuid() -> (r: String)
    ensures
        is_simple_uuid(r@),
{
    uuid::Uuid::new_v4().simple().to_string()
}

/// `uuid::Uuid::new_v4().as_u128()`: 128 random bits (122 of them random,
/// the rest the version and variant); nothing is claimed of the value.
#[verifier::external_body]
pub fn random_u128() -> (r: u128) {
    uuid::Uuid::new_v4().as_u128()
}

/// Identifier of a persisted [`Execution`]: `ksf_<simple uuid v4>`.
#[derive(Debug, PartialEq, Eq, Hash)]
pub struct ExecutionId(pub String);

impl View for ExecutionId {
    type V = Seq<char>;

    open spec fn view(&self) -> Seq<char> {
        self.0@
    }
}

impl Clone for ExecutionId {
    fn clone(&self) -> (r: Self)
        ensures
            r@ == self@,
    {
        ExecutionId(self.0.clone())
    }
}

pub open spec fn is_execution_id(s: Seq<char>) -> bool {
    s.len() == 36 && s.take(4) == "ksf_"@ && is_simple_uuid(s.skip(4))
}

impl ExecutionId {
    pub fn new() -> (r: ExecutionId)
        ensures
            is_execution_id(r@),
    {
        let mut s = copy_str("ksf_");
        let u = new_simple_uuid();
        push_str(&mut s, u.as_str());
        proof {
            reveal_strlit("ksf_");
            assert(s@.take(4) =~= "ksf_"@);
            assert(s@.skip(4) =~= u@);
        }
        ExecutionId(s)
    }

    pub fn from_string(s: String) -> (r: ExecutionId)
        ensures
            r@ == s@,
    {
        ExecutionId(s)
    }
}

/// Identifier of a decision gate: `gate_<simple uuid v4>`.
#[derive(Debug, PartialEq, Eq, Hash)]
pub struct GateId(pub String);

impl View for GateId {
    type V = Seq<char>;

    open spec fn view(&self) -> Seq<char> {
        self.0@
    }
}

impl Clone for GateId {
    fn clone(&self) -> (r: Self)
        ensures
            r@ == self@,
    {
        GateId(self.0.clone())
    }
}

pub open spec fn is_gate_id(s: Seq<char>) -> bool {
    s.len() == 37 && s.take(5) == "gate_"@ && is_simple_uuid(s.skip(5))
}

impl GateId {
    pub fn new() -> (r: GateId)
        ensures
            is_gate_id(r@),
    {
        let mut s = copy_str("gate_");
        let u = new_simple_uuid();
        push_str(&mut s, u.as_str());
        proof {
            reveal_strlit("gate_");
            assert(s@.take(5) =~= "gate_"@);
            assert(s@.skip(5) =~= u@);
        }
        GateId(s)
    }
}

// ---------------------------------------------------------------------
// Status
// ---------------------------------------------------------------------

#[derive(Clone, Copy, Debug, PartialEq, Eq, Structural)]
pub enum ExecutionStatus {
    Running,
    WaitingForHuman,
    Completed,
    Failed,
    Cancelled,
}

pub open spec fn status_text(s: ExecutionStatus) -> Seq<char> {
    match s {
        ExecutionStatus::Running => "running"@,
        ExecutionStatus::WaitingForHuman => "waiting_for_human"@,
        ExecutionStatus::Completed => "completed"@,
        ExecutionStatus::Failed => "failed"@,
        ExecutionStatus::Cancelled => "cancelled"@,
    }
}

impl ExecutionStatus {
    /// The status as it is displayed and serialized (`snake_case`).
    pub fn as_str(&self) -> (r: &'static str)
        ensures
            r@ == status_text(*self),
    {
        match self {
            ExecutionStatus::Running => "running",
            ExecutionStatus::WaitingForHuman => "waiting_for_human",
            ExecutionStatus::Completed => "completed",
            ExecutionStatus::Failed => "failed",
            ExecutionStatus::Cancelled => "cancelled",
        }
    }
}

// ---------------------------------------------------------------------
// Strings and vectors of them
// ---------------------------------------------------------------------

pub open spec fn opt_str(o: Option<String>) -> Option<Seq<char>> {
    match o {
        Some(s) => Some(s@),
        None => None,
    }
}

pub fn clone_strings(v: &Vec<String>) -> (r: Vec<String>)
    ensures
        r.deep_view() == v.deep_view(),
{
    let r = v.clone();
    assert(r.deep_view() =~= v.deep_view());
    r
}

pub fn clone_opt_string(o: &Option<String>) -> (r: Option<String>)
    ensures
        opt_str(r) == opt_str(*o),
{
    match o {
        Some(s) => Some(s.clone()),
        None => None,
    }
}

// ---------------------------------------------------------------------
// Decisions
// ---------------------------------------------------------------------

/// A single decision option offered to the human.
#[derive(Debug)]
pub struct DecisionOption {
    pub id: String,
    pub label: String,
}

pub struct OptionView {
    pub id: Seq<char>,
    pub label: Seq<char>,
}

impl View for DecisionOption {
    type V = OptionView;

    open spec fn view(&self) -> OptionView {
        OptionView { id: self.id@, label: self.label@ }
    }
}

impl DeepView for DecisionOption {
    type V = OptionView;

    open spec fn deep_view(&self) -> OptionView {
        self@
    }
}

impl Clone for DecisionOption {
    fn clone(&self) -> (r: Self)
        ensures
            r@ == self@,
    {
        DecisionOption { id: self.id.clone(), label: self.label.clone() }
    }
}

pub fn clone_options(v: &Vec<DecisionOption>) -> (r: Vec<DecisionOption>)
    ensures
        r.deep_view() == v.deep_view(),
{
    let r = v.clone();
    assert(r.deep_view() =~= v.deep_view());
    r
}

/// A "gate": the agent needs a human decision to continue. Addressed by
/// its own [`GateId`], never only by its question text.
#[derive(Debug)]
pub struct HumanDecisionRequest {
    pub id: GateId,
    pub execution_id: ExecutionId,
    pub question: String,
    pub options: Vec<DecisionOption>,
    pub required: bool,
    /// The option id the agent recommends, when it formed a preference.
    pub recommended_option: Option<String>,
    /// Free-text rationale; empty when the agent gave none.
    pub context: String,
    /// What was already done before this question was raised.
    pub completed: Vec<String>,
}

pub struct GateView {
    pub id: Seq<char>,
    pub execution_id: Seq<char>,
    pub question: Seq<char>,
    pub options: Seq<OptionView>,
    pub required: bool,
    pub recommended_option: Option<Seq<char>>,
    pub context: Seq<char>,
    pub completed: Seq<Seq<char>>,
}

impl View for HumanDecisionRequest {
    type V = GateView;

    open spec fn view(&self) -> GateView {
        GateView {
            id: self.id@,
            execution_id: self.execution_id@,
            question: self.question@,
            options: self.options.deep_view(),
            required: self.required,
            recommended_option: opt_str(self.recommended_option),
            context: self.context@,
            completed: self.completed.deep_view(),
        }
    }
}

impl DeepView for HumanDecisionRequest {
    type V = GateView;

    open spec fn deep_view(&self) -> GateView {
        self@
    }
}

impl Clone for HumanDecisionRequest {
    fn clone(&self) -> (r: Self)
        ensures
            r@ == self@,
    {
        HumanDecisionRequest {
            id: self.id.clone(),
            execution_id: self.execution_id.clone(),
            question: self.question.clone(),
            options: clone_options(&self.options),
            required: self.required,
            recommended_option: clone_opt_string(&self.recommended_option),
            context: self.context.clone(),
            completed: clone_strings(&self.completed),
        }
    }
}

pub fn clone_gates(v: &Vec<HumanDecisionRequest>) -> (r: Vec<HumanDecisionRequest>)
    ensures
        r.deep_view() == v.deep_view(),
{
    let r = v.clone();
    assert(r.deep_view() =~= v.deep_view());
    r
}

/// The human's answer to a [`HumanDecisionRequest`].
#[derive(Debug)]
pub struct HumanDecision {
    pub execution_id: ExecutionId,
    pub option: String,
    /// Who decided, when known (a GitHub login for a comment-driven
    /// decision).
    pub decided_by: Option<String>,
}

// ---------------------------------------------------------------------
// Events
// ---------------------------------------------------------------------

/// Append-only log of what happened during an execution: the single source
/// of truth for `ksforge status`.
#[derive(Debug)]
pub enum ExecutionEvent {
    Started { capability: String, at: Timestamp },
    PlanCreated { summary: String, at: Timestamp },
    AgentStarted { at: Timestamp },
    QuestionRaised { question: String, at: Timestamp },
    HumanDecided { option: String, decided_by: Option<String>, at: Timestamp },
    AgentResumed { at: Timestamp },
    ValidationStarted { at: Timestamp },
    ValidationPassed { at: Timestamp },
    ValidationFailed { detail: String, at: Timestamp },
    Completed { summary: String, at: Timestamp },
    Failed { detail: String, at: Timestamp },
    Cancelled { at: Timestamp },
}

pub enum EventView {
    Started { capability: Seq<char>, at: Timestamp },
    PlanCreated { summary: Seq<char>, at: Timestamp },
    AgentStarted { at: Timestamp },
    QuestionRaised { question: Seq<char>, at: Timestamp },
    HumanDecided { option: Seq<char>, decided_by: Option<Seq<char>>, at: Timestamp },
    AgentResumed { at: Timestamp },
    ValidationStarted { at: Timestamp },
    ValidationPassed { at: Timestamp },
    ValidationFailed { detail: Seq<char>, at: Timestamp },
    Completed { summary: Seq<char>, at: Timestamp },
    Failed { detail: Seq<char>, at: Timestamp },
    Cancelled { at: Timestamp },
}

impl View for ExecutionEvent {
    type V = EventView;

    open spec fn view(&self) -> EventView {
        match self {
            ExecutionEvent::Started { capability, at } => EventView::Started {
                capability: capability@,
                at: *at,
            },
            ExecutionEvent::PlanCreated { summary, at } => EventView::PlanCreated {
                summary: summary@,
                at: *at,
            },
            ExecutionEvent::AgentStarted { at } => EventView::AgentStarted { at: *at },
            ExecutionEvent::QuestionRaised { question, at } => EventView::QuestionRaised {
                question: question@,
                at: *at,
            },
            ExecutionEvent::HumanDecided { option, decided_by, at } => EventView::HumanDecided {
                option: option@,
                decided_by: opt_str(*decided_by),
                at: *at,
            },
            ExecutionEvent::AgentResumed { at } => EventView::AgentResumed { at: *at },
            ExecutionEvent::ValidationStarted { at } => EventView::ValidationStarted { at: *at },
            ExecutionEvent::ValidationPassed { at } => EventView::ValidationPassed { at: *at },
            ExecutionEvent::ValidationFailed { detail, at } => EventView::ValidationFailed {
                detail: detail@,
                at: *at,
            },
            ExecutionEvent::Completed { summary, at } => EventView::Completed {
                summary: summary@,
                at: *at,
            },
            ExecutionEvent::Failed { detail, at } => EventView::Failed { detail: detail@, at: *at },
            ExecutionEvent::Cancelled { at } => EventView::Cancelled { at: *at },
        }
    }
}

impl DeepView for ExecutionEvent {
    type V = EventView;

    open spec fn deep_view(&self) -> EventView {
        self@
    }
}

// ---------------------------------------------------------------------
// Validation and results
// ---------------------------------------------------------------------

#[derive(Debug)]
pub struct ValidationCommandOutcome {
    pub command: String,
    pub passed: bool,
    pub output_tail: String,
}

pub struct CommandView {
    pub command: Seq<char>,
    pub passed: bool,
    pub output_tail: Seq<char>,
}

impl View for ValidationCommandOutcome {
    type V = CommandView;

    open spec fn view(&self) -> CommandView {
        CommandView { command: self.command@, passed: self.passed, output_tail: self.output_tail@ }
    }
}

impl DeepView for ValidationCommandOutcome {
    type V = CommandView;

    open spec fn deep_view(&self) -> CommandView {
        self@
    }
}

impl Clone for ValidationCommandOutcome {
    fn clone(&self) -> (r: Self)
        ensures
            r@ == self@,
    {
        ValidationCommandOutcome {
            command: self.command.clone(),
            passed: self.passed,
            output_tail: self.output_tail.clone(),
        }
    }
}

/// What the agent-driven VALIDATE turn reported.
#[derive(Debug)]
pub struct AgentValidationReport {
    pub summary: String,
    pub completed: Vec<String>,
    pub open_items: Vec<String>,
    pub recommendation: Option<String>,
}

pub struct ReportView {
    pub summary: Seq<char>,
    pub completed: Seq<Seq<char>>,
    pub open_items: Seq<Seq<char>>,
    pub recommendation: Option<Seq<char>>,
}

impl View for AgentValidationReport {
    type V = ReportView;

    open spec fn view(&self) -> ReportView {
        ReportView {
            summary: self.summary@,
            completed: self.completed.deep_view(),
            open_items: self.open_items.deep_view(),
            recommendation: opt_str(self.recommendation),
        }
    }
}

impl Clone for AgentValidationReport {
    fn clone(&self) -> (r: Self)
        ensures
            r@ == self@,
    {
        AgentValidationReport {
            summary: self.summary.clone(),
            completed: clone_strings(&self.completed),
            open_items: clone_strings(&self.open_items),
            recommendation: clone_opt_string(&self.recommendation),
        }
    }
}

#[derive(Debug)]
pub struct ValidationOutcome {
    pub passed: bool,
    pub commands: Vec<ValidationCommandOutcome>,
    pub agent_review: Option<AgentValidationReport>,
}

pub struct ValidationView {
    pub passed: bool,
    pub commands: Seq<CommandView>,
    pub agent_review: Option<ReportView>,
}

pub open spec fn opt_report(o: Option<AgentValidationReport>) -> Option<ReportView> {
    match o {
        Some(r) => Some(r@),
        None => None,
    }
}

impl View for ValidationOutcome {
    type V = ValidationView;

    open spec fn view(&self) -> ValidationView {
        ValidationView {
            passed: self.passed,
            commands: self.commands.deep_view(),
            agent_review: opt_report(self.agent_review),
        }
    }
}

pub open spec fn default_validation() -> ValidationView {
    ValidationView { passed: false, commands: seq![], agent_review: None }
}

impl ValidationOutcome {
    /// The empty outcome: nothing ran, nothing passed (`Default`).
    pub fn empty() -> (r: ValidationOutcome)
        ensures
            r@ == default_validation(),
    {
        let r = ValidationOutcome { passed: false, commands: Vec::new(), agent_review: None };
        assert(r@.commands =~= Seq::<CommandView>::empty());
        r
    }
}

impl Default for ValidationOutcome {
    fn default() -> (r: ValidationOutcome)
        ensures
            r@ == default_validation(),
    {
        ValidationOutcome::empty()
    }
}

impl Clone for ValidationOutcome {
    fn clone(&self) -> (r: Self)
        ensures
            r@ == self@,
    {
        let commands = self.commands.clone();
        assert(commands.deep_view() =~= self.commands.deep_view());
        let agent_review = match &self.agent_review {
            Some(a) => Some(a.clone()),
            None => None,
        };
        ValidationOutcome { passed: self.passed, commands, agent_review }
    }
}

/// Terminal payload of a completed, failed or cancelled execution.
#[derive(Debug)]
pub struct ExecutionResult {
    pub success: bool,
    /// The agent's own headline for the change, when it gave one.
    pub title: Option<String>,
    pub summary: String,
    /// Paths relative to the workspace root.
    pub changed_files: Vec<String>,
    pub validation: ValidationOutcome,
    pub completed: Vec<String>,
    pub open_items: Vec<String>,
    pub recommendation: Option<String>,
}

pub struct ResultView {
    pub success: bool,
    pub title: Option<Seq<char>>,
    pub summary: Seq<char>,
    pub changed_files: Seq<Seq<char>>,
    pub validation: ValidationView,
    pub completed: Seq<Seq<char>>,
    pub open_items: Seq<Seq<char>>,
    pub recommendation: Option<Seq<char>>,
}

impl View for ExecutionResult {
    type V = ResultView;

    open spec fn view(&self) -> ResultView {
        ResultView {
            success: self.success,
            title: opt_str(self.title),
            summary: self.summary@,
            changed_files: self.changed_files.deep_view(),
            validation: self.validation@,
            completed: self.completed.deep_view(),
            open_items: self.open_items.deep_view(),
            recommendation: opt_str(self.recommendation),
        }
    }
}

pub open spec fn opt_result(o: Option<ExecutionResult>) -> Option<ResultView> {
    match o {
        Some(r) => Some(r@),
        None => None,
    }
}

pub open spec fn opt_gate(o: Option<HumanDecisionRequest>) -> Option<GateView> {
    match o {
        Some(g) => Some(g@),
        None => None,
    }
}

// ---------------------------------------------------------------------
// Execution
// ---------------------------------------------------------------------

/// A running or paused unit of orchestration work: a change request being
/// carried out under a capability. Durable, so it can cross a process
/// boundary.
#[derive(Debug)]
pub struct Execution {
    pub id: ExecutionId,
    pub change_request: ChangeRequest,
    pub capability: String,
    pub status: ExecutionStatus,
    pub current_step: String,
    /// Paths relative to the workspace root.
    pub artifacts: Vec<String>,
    pub messages: Vec<ExecutionEvent>,
    pub pending_question: Option<HumanDecisionRequest>,
    /// Every gate ever raised, in order; `pending_question`, when set, is
    /// always the last of them.
    pub gates: Vec<HumanDecisionRequest>,
    /// Where the phase loop stands.
    pub workflow: WorkflowState,
    pub result: Option<ExecutionResult>,
    /// The agent's conversation id, for resuming the same session.
    pub agent_session_id: Option<String>,
    pub created_at: Timestamp,
    pub updated_at: Timestamp,
}

pub struct ExecutionView {
    pub id: Seq<char>,
    pub change_request: Seq<char>,
    pub capability: Seq<char>,
    pub status: ExecutionStatus,
    pub current_step: Seq<char>,
    pub artifacts: Seq<Seq<char>>,
    pub messages: Seq<EventView>,
    pub pending_question: Option<GateView>,
    pub gates: Seq<GateView>,
    pub workflow: WorkflowView,
    pub result: Option<ResultView>,
    pub agent_session_id: Option<Seq<char>>,
    pub created_at: Timestamp,
    pub updated_at: Timestamp,
}

impl View for Execution {
    type V = ExecutionView;

    open spec fn view(&self) -> ExecutionView {
        ExecutionView {
            id: self.id@,
            change_request: self.change_request@,
            capability: self.capability@,
            status: self.status,
            current_step: self.current_step@,
            artifacts: self.artifacts.deep_view(),
            messages: self.messages.deep_view(),
            pending_question: opt_gate(self.pending_question),
            gates: self.gates.deep_view(),
            workflow: self.workflow@,
            result: opt_result(self.result),
            agent_session_id: opt_str(self.agent_session_id),
            created_at: self.created_at,
            updated_at: self.updated_at,
        }
    }
}

/// The timestamp an event carries.
pub open spec fn event_at(e: EventView) -> Timestamp {
    match e {
        EventView::Started { at, .. } => at,
        EventView::PlanCreated { at, .. } => at,
        EventView::AgentStarted { at } => at,
        EventView::QuestionRaised { at, .. } => at,
        EventView::HumanDecided { at, .. } => at,
        EventView::AgentResumed { at } => at,
        EventView::ValidationStarted { at } => at,
        EventView::ValidationPassed { at } => at,
        EventView::ValidationFailed { at, .. } => at,
        EventView::Completed { at, .. } => at,
        EventView::Failed { at, .. } => at,
        EventView::Cancelled { at } => at,
    }
}

/// The well-formedness every operation keeps: a pending gate is the last
/// gate in the history, and a waiting execution has a pending gate.
pub open spec fn wf(e: ExecutionView) -> bool {
    &&& (e.pending_question matches Some(g) ==> e.gates.len() > 0 && e.gates.last() == g)
    &&& (e.status == ExecutionStatus::WaitingForHuman ==> e.pending_question is Some)
}

/// `e` with `event` appended to its log at time `now`.
pub open spec fn recorded(e: ExecutionView, event: EventView, now: Timestamp) -> ExecutionView {
    ExecutionView { messages: e.messages.push(event), updated_at: now, ..e }
}

/// A fresh execution as `Execution::start` builds it.
pub open spec fn started(
    id: Seq<char>,
    change_request: Seq<char>,
    capability: Seq<char>,
    at: Timestamp,
    now: Timestamp,
) -> ExecutionView {
    ExecutionView {
        id,
        change_request,
        capability,
        status: ExecutionStatus::Running,
        current_step: "started"@,
        artifacts: seq![],
        messages: seq![EventView::Started { capability, at }],
        pending_question: None,
        gates: seq![],
        workflow: WorkflowView::Understand,
        result: None,
        agent_session_id: None,
        created_at: at,
        updated_at: now,
    }
}

/// `e` after raising `gate` (its question logged at `at`, the record
/// touched at `now`).
pub open spec fn asked(e: ExecutionView, gate: GateView, at: Timestamp, now: Timestamp) -> ExecutionView {
    ExecutionView {
        messages: e.messages.push(EventView::QuestionRaised { question: gate.question, at }),
        updated_at: now,
        status: ExecutionStatus::WaitingForHuman,
        current_step: "waiting_for_human"@,
        pending_question: Some(gate),
        gates: e.gates.push(gate),
        ..e
    }
}

/// `e` after the human picked `option` (decided at `t1`, resumed at `t2`).
pub open spec fn decided(
    e: ExecutionView,
    option: Seq<char>,
    decided_by: Option<Seq<char>>,
    t1: Timestamp,
    t2: Timestamp,
    now: Timestamp,
) -> ExecutionView {
    ExecutionView {
        messages: e.messages.push(EventView::HumanDecided { option, decided_by, at: t1 }).push(
            EventView::AgentResumed { at: t2 },
        ),
        updated_at: now,
        pending_question: None,
        status: ExecutionStatus::Running,
        current_step: "resuming"@,
        ..e
    }
}

/// `e` after completing with `result`.
pub open spec fn completed(e: ExecutionView, result: ResultView, at: Timestamp, now: Timestamp) -> ExecutionView {
    ExecutionView {
        messages: e.messages.push(EventView::Completed { summary: result.summary, at }),
        updated_at: now,
        artifacts: result.changed_files,
        status: ExecutionStatus::Completed,
        current_step: "completed"@,
        result: Some(result),
        ..e
    }
}

/// The result an unsuccessful ending records: the reason as summary and
/// the artifacts so far as changed files.
pub open spec fn unsuccessful(e: ExecutionView, summary: Seq<char>) -> ResultView {
    ResultView {
        success: false,
        title: None,
        summary,
        changed_files: e.artifacts,
        validation: default_validation(),
        completed: seq![],
        open_items: seq![],
        recommendation: None,
    }
}

/// `e` after failing with `detail`.
pub open spec fn failed(e: ExecutionView, detail: Seq<char>, at: Timestamp, now: Timestamp) -> ExecutionView {
    ExecutionView {
        messages: e.messages.push(EventView::Failed { detail, at }),
        updated_at: now,
        status: ExecutionStatus::Failed,
        current_step: "failed"@,
        result: Some(unsuccessful(e, detail)),
        ..e
    }
}

/// `e` after being cancelled for `reason`.
pub open spec fn cancelled(e: ExecutionView, reason: Seq<char>, at: Timestamp, now: Timestamp) -> ExecutionView {
    ExecutionView {
        messages: e.messages.push(EventView::Cancelled { at }),
        updated_at: now,
        pending_question: None,
        status: ExecutionStatus::Cancelled,
        current_step: "cancelled"@,
        result: Some(unsuccessful(e, reason)),
        ..e
    }
}

impl Execution {
    /// A new, running execution of `capability` on `change_request`, at the
    /// start of its phase loop, with its `Started` event logged.
    pub fn start(change_request: ChangeRequest, capability: &str) -> (r: Execution)
        ensures
            is_execution_id(r@.id),
            r@ == started(r@.id, change_request@, capability@, r@.created_at, r@.updated_at),
            wf(r@),
    {
        let now = now();
        let id = ExecutionId::new();
        let mut execution = Execution {
            id,
            change_request,
            capability: copy_str(capability),
            status: ExecutionStatus::Running,
            current_step: copy_str("started"),
            artifacts: Vec::new(),
            messages: Vec::new(),
            pending_question: None,
            gates: Vec::new(),
            workflow: WorkflowState::start(),
            result: None,
            agent_session_id: None,
            created_at: now,
            updated_at: now,
        };
        execution.record(ExecutionEvent::Started { capability: copy_str(capability), at: now });
        proof {
            assert(execution@.artifacts =~= Seq::<Seq<char>>::empty());
            assert(execution@.gates =~= Seq::<GateView>::empty());
            assert(execution@.messages =~= seq![EventView::Started { capability: capability@, at: now }]);
        }
        execution
    }

    /// Appends `event` to the log and touches `updated_at`.
    pub fn record(&mut self, event: ExecutionEvent)
        ensures
            final(self)@ == recorded(old(self)@, event@, final(self)@.updated_at),
    {
        self.updated_at = now();
        let ghost old_messages = self.messages.deep_view();
        self.messages.push(event);
        assert(self.messages.deep_view() =~= old_messages.push(event@));
    }

    /// Raises a new gate: the execution waits for a human decision on
    /// `question`, and this new gate joins the history.
    pub fn ask(
        &mut self,
        question: String,
        options: Vec<DecisionOption>,
        recommended_option: Option<String>,
        context: String,
        completed: Vec<String>,
    ) -> (r: HumanDecisionRequest)
        ensures
            is_gate_id(r@.id),
            r@.execution_id == old(self)@.id,
            r@.question == question@,
            r@.options == options.deep_view(),
            r@.required,
            r@.recommended_option == opt_str(recommended_option),
            r@.context == context@,
            r@.completed == completed.deep_view(),
            final(self)@ == asked(
                old(self)@,
                r@,
                event_at(final(self)@.messages.last()),
                final(self)@.updated_at,
            ),
            wf(old(self)@) ==> wf(final(self)@),
    {
        let request = HumanDecisionRequest {
            id: GateId::new(),
            execution_id: self.id.clone(),
            question: question.clone(),
            options,
            required: true,
            recommended_option,
            context,
            completed,
        };
        self.record(ExecutionEvent::QuestionRaised { question, at: now() });
        self.status = ExecutionStatus::WaitingForHuman;
        self.current_step = copy_str("waiting_for_human");
        self.pending_question = Some(request.clone());
        let ghost old_gates = self.gates.deep_view();
        self.gates.push(request.clone());
        proof {
            assert(self.gates.deep_view() =~= old_gates.push(request@));
        }
        request
    }

    /// The open gate awaiting a decision, if any.
    pub fn open_gate(&self) -> (r: Option<&HumanDecisionRequest>)
        ensures
            r matches Some(g) ==> self.pending_question == Some(*g),
            r is None ==> self.pending_question is None,
    {
        match &self.pending_question {
            Some(g) => Some(g),
            None => None,
        }
    }

    /// Applies the human's decision: its open question closes (it stays in the
    /// history) and the execution runs again.
    pub fn apply_decision(&mut self, decision: &HumanDecision)
        ensures
            ({
                let m = final(self)@.messages;
                let n = m.len();
                n >= 2 && final(self)@ == decided(
                    old(self)@,
                    decision.option@,
                    opt_str(decision.decided_by),
                    event_at(m[n - 2]),
                    event_at(m[n - 1]),
                    final(self)@.updated_at,
                )
            }),
            wf(old(self)@) ==> wf(final(self)@),
    {
        self.record(ExecutionEvent::HumanDecided {
            option: decision.option.clone(),
            decided_by: clone_opt_string(&decision.decided_by),
            at: now(),
        });
        self.pending_question = None;
        self.status = ExecutionStatus::Running;
        self.current_step = copy_str("resuming");
        self.record(ExecutionEvent::AgentResumed { at: now() });
    }

    /// Finishes the execution successfully with `result`; its changed
    /// files become the execution's artifacts.
    pub fn complete(&mut self, result: ExecutionResult)
        ensures
            final(self)@ == completed(
                old(self)@,
                result@,
                event_at(final(self)@.messages.last()),
                final(self)@.updated_at,
            ),
            wf(old(self)@) ==> wf(final(self)@),
    {
        self.record(ExecutionEvent::Completed { summary: result.summary.clone(), at: now() });
        self.artifacts = clone_strings(&result.changed_files);
        self.status = ExecutionStatus::Completed;
        self.current_step = copy_str("completed");
        self.result = Some(result);
    }

    /// Ends the execution as failed, with `detail` as the result summary.
    pub fn fail(&mut self, detail: &str)
        ensures
            final(self)@ == failed(
                old(self)@,
                detail@,
                event_at(final(self)@.messages.last()),
                final(self)@.updated_at,
            ),
            wf(old(self)@) ==> wf(final(self)@),
    {
        self.record(ExecutionEvent::Failed { detail: copy_str(detail), at: now() });
        self.status = ExecutionStatus::Failed;
        self.current_step = copy_str("failed");
        let changed_files = clone_strings(&self.artifacts);
        let validation = ValidationOutcome::empty();
        let r = ExecutionResult {
            success: false,
            title: None,
            summary: copy_str(detail),
            changed_files,
            validation,
            completed: Vec::new(),
            open_items: Vec::new(),
            recommendation: None,
        };
        proof {
            assert(r@.completed =~= Seq::<Seq<char>>::empty());
            assert(r@.open_items =~= Seq::<Seq<char>>::empty());
        }
        self.result = Some(r);
    }

    /// Deliberately stops an execution that will not be resumed: an
    /// operator's choice, not an error. Any open gate closes.
    pub fn cancel(&mut self, reason: &str)
        ensures
            final(self)@ == cancelled(
                old(self)@,
                reason@,
                event_at(final(self)@.messages.last()),
                final(self)@.updated_at,
            ),
            wf(old(self)@) ==> wf(final(self)@),
    {
        self.pending_question = None;
        self.status = ExecutionStatus::Cancelled;
        self.current_step = copy_str("cancelled");
        let changed_files = clone_strings(&self.artifacts);
        let validation = ValidationOutcome::empty();
        let r = ExecutionResult {
            success: false,
            title: None,
            summary: copy_str(reason),
            changed_files,
            validation,
            completed: Vec::new(),
            open_items: Vec::new(),
            recommendation: None,
        };
        proof {
            assert(r@.completed =~= Seq::<Seq<char>>::empty());
            assert(r@.open_items =~= Seq::<Seq<char>>::empty());
        }
        self.result = Some(r);
        self.record(ExecutionEvent::Cancelled { at: now() });
    }

    /// Moves the phase loop to `next`.
    pub fn advance(&mut self, next: WorkflowState)
        ensures
            final(self)@ == (ExecutionView { workflow: next@, ..old(self)@ }),
            wf(old(self)@) ==> wf(final(self)@),
    {
        self.workflow = next;
    }
}

// ---------------------------------------------------------------------
// Laws
// ---------------------------------------------------------------------

/// A decision closes exactly what its question opened: after a
/// question and its answer the execution runs again with no gate pending,
/// that gate stays in the history as its last entry, the log holds the
/// question, the decision and the resumption in that order, and nothing
/// else about the execution changed. Both steps keep the execution
/// well-formed.
pub proof fn lemma_decision_closes_its_gate(
    e: ExecutionView,
    gate: GateView,
    option: Seq<char>,
    decided_by: Option<Seq<char>>,
    asked_at: Timestamp,
    decided_at: Timestamp,
    resumed_at: Timestamp,
    t1: Timestamp,
    t2: Timestamp,
)
    requires
        wf(e),
    ensures
        ({
            let a = asked(e, gate, asked_at, t1);
            let d = decided(a, option, decided_by, decided_at, resumed_at, t2);
            &&& wf(a)
            &&& a.status == ExecutionStatus::WaitingForHuman
            &&& a.pending_question == Some(gate)
            &&& wf(d)
            &&& d.status == ExecutionStatus::Running
            &&& d.pending_question is None
            &&& d.gates == e.gates.push(gate)
            &&& d.messages == e.messages + seq![
                EventView::QuestionRaised { question: gate.question, at: asked_at },
                EventView::HumanDecided { option, decided_by, at: decided_at },
                EventView::AgentResumed { at: resumed_at },
            ]
            &&& d.id == e.id && d.change_request == e.change_request && d.capability == e.capability
            &&& d.workflow == e.workflow && d.result == e.result && d.artifacts == e.artifacts
            &&& d.agent_session_id == e.agent_session_id && d.created_at == e.created_at
        }),
{
    let a = asked(e, gate, asked_at, t1);
    let d = decided(a, option, decided_by, decided_at, resumed_at, t2);
    assert(d.messages =~= e.messages + seq![
        EventView::QuestionRaised { question: gate.question, at: asked_at },
        EventView::HumanDecided { option, decided_by, at: decided_at },
        EventView::AgentResumed { at: resumed_at },
    ]);
}

/// The record only grows: every operation on an execution keeps its whole
/// event log and its whole gate history as a prefix, its identity and
/// its change request.
pub proof fn lemma_history_only_grows(
    e: ExecutionView,
    event: EventView,
    gate: GateView,
    option: Seq<char>,
    decided_by: Option<Seq<char>>,
    result: ResultView,
    text: Seq<char>,
    t1: Timestamp,
    t2: Timestamp,
    t3: Timestamp,
)
    ensures
        forall|n: ExecutionView|
            n == recorded(e, event, t1) || n == asked(e, gate, t1, t2) || n == decided(
                e,
                option,
                decided_by,
                t1,
                t2,
                t3,
            ) || n == completed(e, result, t1, t2) || n == failed(e, text, t1, t2) || n == cancelled(
                e,
                text,
                t1,
                t2,
            ) ==> {
                &&& e.messages.is_prefix_of(#[trigger] n.messages)
                &&& e.messages.len() < n.messages.len()
                &&& e.gates.is_prefix_of(n.gates)
                &&& n.id == e.id
                &&& n.change_request == e.change_request
                &&& n.capability == e.capability
            },
{
    assert forall|n: ExecutionView|
        n == recorded(e, event, t1) || n == asked(e, gate, t1, t2) || n == decided(
            e,
            option,
            decided_by,
            t1,
            t2,
            t3,
        ) || n == completed(e, result, t1, t2) || n == failed(e, text, t1, t2) || n == cancelled(
            e,
            text,
            t1,
            t2,
        ) implies {
            &&& e.messages.is_prefix_of(#[trigger] n.messages)
            &&& e.messages.len() < n.messages.len()
            &&& e.gates.is_prefix_of(n.gates)
            &&& n.id == e.id
            &&& n.change_request == e.change_request
            &&& n.capability == e.capability
        } by {
        assert(e.gates.is_prefix_of(e.gates));
        assert(e.gates.is_prefix_of(e.gates.push(gate)));
        assert(e.messages.is_prefix_of(e.messages.push(event)));
        assert(e.messages.is_prefix_of(e.messages.push(EventView::QuestionRaised { question: gate.question, at: t1 })));
        let m1 = e.messages.push(EventView::HumanDecided { option, decided_by, at: t1 });
        assert(e.messages.is_prefix_of(m1.push(EventView::AgentResumed { at: t2 })));
        assert(e.messages.is_prefix_of(e.messages.push(EventView::Completed { summary: result.summary, at: t1 })));
        assert(e.messages.is_prefix_of(e.messages.push(EventView::Failed { detail: text, at: t1 })));
        assert(e.messages.is_prefix_of(e.messages.push(EventView::Cancelled { at: t1 })));
    }
}

/// Every ending keeps the record sound: completing, failing and
/// cancelling each keep the execution well-formed and record their
/// result; cancelling also closes any open gate.
pub proof fn lemma_endings_keep_the_record_sound(
    e: ExecutionView,
    result: ResultView,
    text: Seq<char>,
    t1: Timestamp,
    t2: Timestamp,
)
    requires
        wf(e),
    ensures
        wf(completed(e, result, t1, t2)),
        wf(failed(e, text, t1, t2)),
        wf(cancelled(e, text, t1, t2)),
        cancelled(e, text, t1, t2).pending_question is None,
        completed(e, result, t1, t2).result == Some(result),
        failed(e, text, t1, t2).result == Some(unsuccessful(e, text)),
        cancelled(e, text, t1, t2).result == Some(unsuccessful(e, text)),
{
}

} // verus!
