use vstd::prelude::*;

use crate::json::Json;
use crate::text::{contains_seq, contains_str, copy_str, lowercase, push_str, to_lowercase};

verus! {

/// How permissive the spawned agent session is.
#[derive(Clone, Copy, Debug, PartialEq, Eq, Structural)]
pub enum PermissionMode {
    /// Never allowed to edit; unattended prompts are auto-denied.
    ReadOnly,
    /// Edits auto-accepted; unattended prompts are auto-denied.
    AcceptEdits,
    /// Shell execution pre-approved, but no edit tools offered: the VALIDATE
    /// turn runs builds and tests without being able to change code.
    ExecuteOnly,
}

/// Which structured-output schema a turn is held to.
#[derive(Clone, Copy, Debug, PartialEq, Eq, Structural)]
pub enum OutputSchema {
    /// The phase-turn outcome (`AgentOutcome`).
    Outcome,
    /// The coordination analysis (`CoordinationDecision`).
    Coordination,
}

pub open spec fn outcome_schema_text() -> Seq<char> {
    "{\"additionalProperties\":false,\"properties\":{\"changed_files\":{\"items\":{\"type\":\"string\"},\"type\":\"array\"},\"completed\":{\"items\":{\"type\":\"string\"},\"type\":\"array\"},\"conventions\":{\"items\":{\"type\":\"string\"},\"type\":\"array\"},\"existing_abstractions\":{\"items\":{\"type\":\"string\"},\"type\":\"array\"},\"existing_tests\":{\"items\":{\"type\":\"string\"},\"type\":\"array\"},\"failure_reason\":{\"type\":\"string\"},\"open_items\":{\"items\":{\"type\":\"string\"},\"type\":\"array\"},\"options\":{\"items\":{\"additionalProperties\":false,\"properties\":{\"id\":{\"type\":\"string\"},\"label\":{\"type\":\"string\"}},\"required\":[\"id\",\"label\"],\"type\":\"object\"},\"type\":\"array\"},\"question\":{\"type\":\"string\"},\"recommendation\":{\"type\":\"string\"},\"recommended_option\":{\"type\":\"string\"},\"relevant_files\":{\"items\":{\"type\":\"string\"},\"type\":\"array\"},\"scope\":{\"items\":{\"type\":\"string\"},\"type\":\"array\"},\"status\":{\"enum\":[\"completed\",\"waiting_for_human\",\"failed\"],\"type\":\"string\"},\"summary\":{\"type\":\"string\"},\"title\":{\"type\":\"string\"}},\"required\":[\"status\",\"summary\"],\"type\":\"object\"}"@
}

pub open spec fn coordination_schema_text() -> Seq<char> {
    "{\"additionalProperties\":false,\"properties\":{\"affected_scope\":{\"items\":{\"type\":\"string\"},\"type\":\"array\"},\"classification\":{\"enum\":[\"LOW\",\"MEDIUM\",\"HIGH\",\"BLOCKED\"],\"type\":\"string\"},\"conflicts\":{\"items\":{\"type\":\"string\"},\"type\":\"array\"},\"dependencies\":{\"items\":{\"type\":\"string\"},\"type\":\"array\"},\"proceed\":{\"type\":\"boolean\"},\"recommendations\":{\"items\":{\"type\":\"string\"},\"type\":\"array\"},\"related_executions\":{\"items\":{\"type\":\"string\"},\"type\":\"array\"}},\"required\":[\"classification\",\"proceed\"],\"type\":\"object\"}"@
}

pub open spec fn schema_text_of(s: OutputSchema) -> Seq<char> {
    match s {
        OutputSchema::Outcome => outcome_schema_text(),
        OutputSchema::Coordination => coordination_schema_text(),
    }
}

impl OutputSchema {
    /// The JSON Schema document, serialized compactly (keys sorted), as it
    /// is handed to the agent.
    pub fn text(&self) -> (r: &'static str)
        ensures
            r@ == schema_text_of(*self),
    {
        match self {
            OutputSchema::Outcome => "{\"additionalProperties\":false,\"properties\":{\"changed_files\":{\"items\":{\"type\":\"string\"},\"type\":\"array\"},\"completed\":{\"items\":{\"type\":\"string\"},\"type\":\"array\"},\"conventions\":{\"items\":{\"type\":\"string\"},\"type\":\"array\"},\"existing_abstractions\":{\"items\":{\"type\":\"string\"},\"type\":\"array\"},\"existing_tests\":{\"items\":{\"type\":\"string\"},\"type\":\"array\"},\"failure_reason\":{\"type\":\"string\"},\"open_items\":{\"items\":{\"type\":\"string\"},\"type\":\"array\"},\"options\":{\"items\":{\"additionalProperties\":false,\"properties\":{\"id\":{\"type\":\"string\"},\"label\":{\"type\":\"string\"}},\"required\":[\"id\",\"label\"],\"type\":\"object\"},\"type\":\"array\"},\"question\":{\"type\":\"string\"},\"recommendation\":{\"type\":\"string\"},\"recommended_option\":{\"type\":\"string\"},\"relevant_files\":{\"items\":{\"type\":\"string\"},\"type\":\"array\"},\"scope\":{\"items\":{\"type\":\"string\"},\"type\":\"array\"},\"status\":{\"enum\":[\"completed\",\"waiting_for_human\",\"failed\"],\"type\":\"string\"},\"summary\":{\"type\":\"string\"},\"title\":{\"type\":\"string\"}},\"required\":[\"status\",\"summary\"],\"type\":\"object\"}",
            OutputSchema::Coordination => "{\"additionalProperties\":false,\"properties\":{\"affected_scope\":{\"items\":{\"type\":\"string\"},\"type\":\"array\"},\"classification\":{\"enum\":[\"LOW\",\"MEDIUM\",\"HIGH\",\"BLOCKED\"],\"type\":\"string\"},\"conflicts\":{\"items\":{\"type\":\"string\"},\"type\":\"array\"},\"dependencies\":{\"items\":{\"type\":\"string\"},\"type\":\"array\"},\"proceed\":{\"type\":\"boolean\"},\"recommendations\":{\"items\":{\"type\":\"string\"},\"type\":\"array\"},\"related_executions\":{\"items\":{\"type\":\"string\"},\"type\":\"array\"}},\"required\":[\"classification\",\"proceed\"],\"type\":\"object\"}",
        }
    }
}

/// A controlled request to the execution engine: the boundary the agent
/// sees, free of ksforge's own domain types.
pub struct AgentRequest {
    pub prompt: String,
    pub system_prompt: Option<String>,
    pub working_directory: String,
    pub tools: Vec<String>,
    pub model: Option<String>,
    pub permission_mode: PermissionMode,
    pub json_schema: Option<OutputSchema>,
    /// The spend cap, as the decimal text it is passed on with.
    pub max_budget_usd: Option<String>,
    /// Resume this agent conversation instead of starting a new one.
    pub resume_session_id: Option<String>,
    /// An MCP server configuration file, passed through unmodified.
    pub mcp_config: Option<String>,
}

pub struct RequestView {
    pub prompt: Seq<char>,
    pub system_prompt: Option<Seq<char>>,
    pub working_directory: Seq<char>,
    pub tools: Seq<Seq<char>>,
    pub model: Option<Seq<char>>,
    pub permission_mode: PermissionMode,
    pub json_schema: Option<OutputSchema>,
    pub max_budget_usd: Option<Seq<char>>,
    pub resume_session_id: Option<Seq<char>>,
    pub mcp_config: Option<Seq<char>>,
}

impl View for AgentRequest {
    type V = RequestView;

    open spec fn view(&self) -> RequestView {
        RequestView {
            prompt: self.prompt@,
            system_prompt: crate::domain::execution::opt_str(self.system_prompt),
            working_directory: self.working_directory@,
            tools: self.tools.deep_view(),
            model: crate::domain::execution::opt_str(self.model),
            permission_mode: self.permission_mode,
            json_schema: self.json_schema,
            max_budget_usd: crate::domain::execution::opt_str(self.max_budget_usd),
            resume_session_id: crate::domain::execution::opt_str(self.resume_session_id),
            mcp_config: crate::domain::execution::opt_str(self.mcp_config),
        }
    }
}

impl Clone for AgentRequest {
    fn clone(&self) -> (r: Self)
        ensures
            r@ == self@,
    {
        AgentRequest {
            prompt: self.prompt.clone(),
            system_prompt: crate::domain::execution::clone_opt_string(&self.system_prompt),
            working_directory: self.working_directory.clone(),
            tools: crate::domain::execution::clone_strings(&self.tools),
            model: crate::domain::execution::clone_opt_string(&self.model),
            permission_mode: self.permission_mode,
            json_schema: self.json_schema,
            max_budget_usd: crate::domain::execution::clone_opt_string(&self.max_budget_usd),
            resume_session_id: crate::domain::execution::clone_opt_string(&self.resume_session_id),
            mcp_config: crate::domain::execution::clone_opt_string(&self.mcp_config),
        }
    }
}

/// What came back from one agent turn.
pub struct AgentResult {
    /// Raw final-turn text, always present.
    pub raw_text: String,
    /// The final-turn text read as JSON, when it is JSON.
    pub structured: Option<Json>,
    /// The agent's conversation id, when reported.
    pub session_id: Option<String>,
}

pub enum AgentError {
    /// The payload is the whole message, including any install hint.
    NotFound(String),
    NonZeroExit(String),
    MalformedOutput(String),
    /// A request field this executor cannot honor: raised instead of
    /// silently running with weaker guarantees than asked for.
    Unsupported(String),
    Io(std::io::Error),
}

/// Error texts that mark a failure worth retrying unchanged.
pub open spec fn transient_detail(detail: Seq<char>) -> bool {
    let l = lowercase(detail);
    ||| contains_seq(l, "rate limit"@)
    ||| contains_seq(l, "rate_limit"@)
    ||| contains_seq(l, "overloaded"@)
    ||| contains_seq(l, "timed out"@)
    ||| contains_seq(l, "timeout"@)
    ||| contains_seq(l, "connection reset"@)
    ||| contains_seq(l, "econnreset"@)
    ||| contains_seq(l, "socket hang up"@)
    ||| contains_seq(l, "temporarily unavailable"@)
    ||| contains_seq(l, "service unavailable"@)
    ||| contains_seq(l, "502"@)
    ||| contains_seq(l, "503"@)
    ||| contains_seq(l, "529"@)
}

/// Whether the very same request might succeed on a second try.
pub open spec fn transient(e: AgentError) -> bool {
    match e {
        AgentError::Io(_) => true,
        AgentError::NonZeroExit(d) => transient_detail(d@),
        _ => false,
    }
}

/// Keyword sniff over an agent CLI's own error text (it exposes no
/// structured transient/permanent distinction), compared lower-cased.
pub fn is_transient_detail(detail: &str) -> (r: bool)
    ensures
        r == transient_detail(detail@),
{
    let lower = to_lowercase(detail);
    let l = crate::text::chars_of(lower.as_str());
    let l = l.as_slice();
    contains_str(l, "rate limit") || contains_str(l, "rate_limit") || contains_str(l, "overloaded")
        || contains_str(l, "timed out") || contains_str(l, "timeout") || contains_str(
        l,
        "connection reset",
    ) || contains_str(l, "econnreset") || contains_str(l, "socket hang up") || contains_str(
        l,
        "temporarily unavailable",
    ) || contains_str(l, "service unavailable") || contains_str(l, "502") || contains_str(l, "503")
        || contains_str(l, "529")
}

pub open spec fn agent_error_prefix(e: AgentError) -> Seq<char> {
    match e {
        AgentError::NotFound(_) => "agent executable not found: "@,
        AgentError::NonZeroExit(_) => "agent process exited with a non-zero status: "@,
        AgentError::MalformedOutput(_) => "agent produced output that could not be parsed: "@,
        AgentError::Unsupported(_) => "not supported by this executor: "@,
        AgentError::Io(_) => seq![],
    }
}

impl AgentError {
    /// Whether retrying the same request might succeed: I/O failures, and
    /// non-zero exits whose text names a rate limit, overload, timeout or
    /// gateway error. Misconfiguration (`NotFound`, `Unsupported`) and the
    /// model's own malformed output never are.
    pub fn is_transient(&self) -> (r: bool)
        ensures
            r == transient(*self),
    {
        match self {
            AgentError::Io(_) => true,
            AgentError::NonZeroExit(detail) => is_transient_detail(detail.as_str()),
            AgentError::NotFound(_) | AgentError::MalformedOutput(_) | AgentError::Unsupported(_) =>
                false,
        }
    }

    /// The error's message (its `Display` text).
    pub fn message(&self) -> (r: String)
        ensures
            match self {
                AgentError::Io(_) => true,
                AgentError::NotFound(d) | AgentError::NonZeroExit(d) | AgentError::MalformedOutput(
                    d,
                ) | AgentError::Unsupported(d) => r@ == agent_error_prefix(*self) + d@,
            },
    {
        let (prefix, detail) = match self {
            AgentError::NotFound(d) => ("agent executable not found: ", d),
            AgentError::NonZeroExit(d) => ("agent process exited with a non-zero status: ", d),
            AgentError::MalformedOutput(d) => ("agent produced output that could not be parsed: ", d),
            AgentError::Unsupported(d) => ("not supported by this executor: ", d),
            AgentError::Io(e) => {
                return crate::domain::error::io_error_text(e);
            },
        };
        let mut r = copy_str(prefix);
        push_str(&mut r, detail.as_str());
        r
    }
}


/// Which agent failures are worth retrying: any I/O failure; a non-zero
/// exit whose text (compared lower-cased) speaks of a rate limit, an
/// overload, a timeout, a dropped connection, an unavailable service or an
/// HTTP 502, 503 or 529; and nothing else: not a missing executable,
/// unreadable output or an unsupported request.
pub proof fn lemma_what_is_retried(e: AgentError)
    ensures
        e is Io ==> transient(e),
        e is NotFound || e is MalformedOutput || e is Unsupported ==> !transient(e),
        e matches AgentError::NonZeroExit(d) ==> ({
            let l = lowercase(d@);
            ||| contains_seq(l, "rate limit"@)
            ||| contains_seq(l, "rate_limit"@)
            ||| contains_seq(l, "overloaded"@)
            ||| contains_seq(l, "timed out"@)
            ||| contains_seq(l, "timeout"@)
            ||| contains_seq(l, "connection reset"@)
            ||| contains_seq(l, "econnreset"@)
            ||| contains_seq(l, "socket hang up"@)
            ||| contains_seq(l, "temporarily unavailable"@)
            ||| contains_seq(l, "service unavailable"@)
            ||| contains_seq(l, "502"@)
            ||| contains_seq(l, "503"@)
            ||| contains_seq(l, "529"@)
        } <==> transient(e)),
{
}

} // verus!
