//! The primary coding-agent CLI as the execution engine: the command line a turn
//! is run with, and how its `--output-format json` reply is read. Spawning
//! the process is the caller's part.
use vstd::prelude::*;

use super::executor::{schema_text_of, AgentError, AgentRequest, AgentResult, PermissionMode};
use crate::json::{
    bool_field, json_parse, opt_string_field, parse_json, parsed_json, read_bool,
    read_opt_string, Json,
};
use crate::text::{
    byte_cut_ok, byte_truncate, copy_str, is_blank, is_blank_str, join, trim, trim_str,
    truncate_bytes,
};

verus! {

/// Where the coding-agent executable was found.
pub struct ClaudeCodeExecutor {
    claude_path: String,
}

impl ClaudeCodeExecutor {
    pub fn at(claude_path: String) -> (r: ClaudeCodeExecutor)
        ensures
            r.path_spec() == claude_path@,
    {
        ClaudeCodeExecutor { claude_path }
    }

    pub closed spec fn path_spec(&self) -> Seq<char> {
        self.claude_path@
    }

    pub fn path(&self) -> (r: &String)
        ensures
            r@ == self.path_spec(),
    {
        &self.claude_path
    }
}

// ---------------------------------------------------------------------
// The command line
// ---------------------------------------------------------------------

pub open spec fn permission_mode_text(m: PermissionMode) -> Seq<char> {
    match m {
        PermissionMode::ReadOnly => "plan"@,
        PermissionMode::AcceptEdits => "acceptEdits"@,
        PermissionMode::ExecuteOnly => "default"@,
    }
}

/// `--permission-mode <mode> --permission-prompts none`, plus a Bash
/// pre-approval for the modes that may run commands: `acceptEdits` alone
/// would auto-deny the build/test commands a turn needs, and nothing can
/// answer a prompt in an unattended run.
pub open spec fn permission_args_spec(m: PermissionMode) -> Seq<Seq<char>> {
    let base = seq!["--permission-mode"@, permission_mode_text(m), "--permission-prompts"@, "none"@];
    match m {
        PermissionMode::ReadOnly => base,
        PermissionMode::AcceptEdits => base + seq!["--allowedTools"@, "Bash"@],
        PermissionMode::ExecuteOnly => base + seq!["--allowedTools"@, "Bash,PowerShell"@],
    }
}

pub fn permission_args(mode: PermissionMode) -> (r: Vec<String>)
    ensures
        r.deep_view() == permission_args_spec(mode),
{
    let mut args: Vec<String> = Vec::new();
    args.push(copy_str("--permission-mode"));
    match mode {
        PermissionMode::ReadOnly => {
            args.push(copy_str("plan"));
            args.push(copy_str("--permission-prompts"));
            args.push(copy_str("none"));
            assert(args.deep_view() =~= permission_args_spec(mode));
        },
        PermissionMode::AcceptEdits => {
            args.push(copy_str("acceptEdits"));
            args.push(copy_str("--permission-prompts"));
            args.push(copy_str("none"));
            args.push(copy_str("--allowedTools"));
            args.push(copy_str("Bash"));
            assert(args.deep_view() =~= permission_args_spec(mode));
        },
        PermissionMode::ExecuteOnly => {
            args.push(copy_str("default"));
            args.push(copy_str("--permission-prompts"));
            args.push(copy_str("none"));
            args.push(copy_str("--allowedTools"));
            args.push(copy_str("Bash,PowerShell"));
            assert(args.deep_view() =~= permission_args_spec(mode));
        },
    }
    args
}

pub open spec fn opt_pair(flag: Seq<char>, v: Option<String>) -> Seq<Seq<char>> {
    match v {
        Some(x) => seq![flag, x@],
        None => seq![],
    }
}

/// The full argument list of one turn: print mode with a JSON envelope,
/// the tool scope, the permission flags, then each optional setting, and
/// the prompt last. An MCP configuration always comes with
/// `--strict-mcp-config`, so no server from a user or global config leaks
/// in.
pub open spec fn claude_args_spec(r: AgentRequest) -> Seq<Seq<char>> {
    seq!["-p"@, "--output-format"@, "json"@]
        + (if r.tools@.len() > 0 { seq!["--tools"@, join(r.tools.deep_view(), ","@)] } else { seq![] })
        + permission_args_spec(r.permission_mode)
        + opt_pair("--model"@, r.model)
        + opt_pair("--append-system-prompt"@, r.system_prompt)
        + (match r.json_schema { Some(s) => seq!["--json-schema"@, schema_text_of(s)], None => seq![] })
        + opt_pair("--max-budget-usd"@, r.max_budget_usd)
        + opt_pair("--resume"@, r.resume_session_id)
        + (match r.mcp_config { Some(c) => seq!["--mcp-config"@, c@, "--strict-mcp-config"@], None => seq![] })
        + seq![r.prompt@]
}

fn push_opt(args: &mut Vec<String>, flag: &str, v: &Option<String>)
    ensures
        final(args).deep_view() == old(args).deep_view() + opt_pair(flag@, *v),
{
    let ghost before = args.deep_view();
    match v {
        Some(x) => {
            args.push(copy_str(flag));
            args.push(x.clone());
            assert(args.deep_view() =~= before + opt_pair(flag@, *v));
        },
        None => {
            assert(args.deep_view() =~= before + opt_pair(flag@, *v));
        },
    }
}

fn append_all(args: &mut Vec<String>, more: Vec<String>)
    ensures
        final(args).deep_view() == old(args).deep_view() + more.deep_view(),
{
    let ghost before = args.deep_view();
    let ghost extra = more.deep_view();
    let mut more = more;
    args.append(&mut more);
    assert(args.deep_view() =~= before + extra);
}

/// The arguments the agent CLI is started with for `request`.
pub fn claude_args(request: &AgentRequest) -> (r: Vec<String>)
    ensures
        r.deep_view() == claude_args_spec(*request),
{
    let mut args: Vec<String> = Vec::new();
    args.push(copy_str("-p"));
    args.push(copy_str("--output-format"));
    args.push(copy_str("json"));
    let ghost a0 = args.deep_view();
    if request.tools.len() > 0 {
        args.push(copy_str("--tools"));
        args.push(crate::text::join_strings(request.tools.as_slice(), ","));
    }
    proof {
        assert(request.tools@.map_values(|s: String| s@) =~= request.tools.deep_view());
    }
    let ghost a1 = args.deep_view();
    append_all(&mut args, permission_args(request.permission_mode));
    push_opt(&mut args, "--model", &request.model);
    push_opt(&mut args, "--append-system-prompt", &request.system_prompt);
    let ghost a2 = args.deep_view();
    match &request.json_schema {
        Some(s) => {
            args.push(copy_str("--json-schema"));
            args.push(copy_str(s.text()));
        },
        None => {},
    }
    let ghost a3 = args.deep_view();
    push_opt(&mut args, "--max-budget-usd", &request.max_budget_usd);
    push_opt(&mut args, "--resume", &request.resume_session_id);
    let ghost a4 = args.deep_view();
    match &request.mcp_config {
        Some(c) => {
            args.push(copy_str("--mcp-config"));
            args.push(c.clone());
            args.push(copy_str("--strict-mcp-config"));
        },
        None => {},
    }
    let ghost a5 = args.deep_view();
    args.push(request.prompt.clone());
    proof {
        assert(a0 =~= seq!["-p"@, "--output-format"@, "json"@]);
        if request.tools@.len() > 0 {
            assert(a1 =~= a0 + seq!["--tools"@, join(request.tools.deep_view(), ","@)]);
        } else {
            assert(a1 =~= a0 + Seq::<Seq<char>>::empty());
        }
        match request.json_schema {
            Some(s) => assert(a3 =~= a2 + seq!["--json-schema"@, schema_text_of(s)]),
            None => assert(a3 =~= a2 + Seq::<Seq<char>>::empty()),
        }
        if request.mcp_config is Some {
            assert(a5 =~= a4 + seq!["--mcp-config"@, request.mcp_config->0@, "--strict-mcp-config"@]);
        } else {
            assert(a5 =~= a4 + Seq::<Seq<char>>::empty());
        }
        assert(args.deep_view() =~= claude_args_spec(*request));
    }
    args
}

// ---------------------------------------------------------------------
// The reply
// ---------------------------------------------------------------------

/// The fields of the agent CLI's JSON result envelope ksforge reads; every
/// other field is ignored.
pub struct Envelope {
    pub result: Option<String>,
    pub session_id: Option<String>,
    pub is_error: bool,
}

pub struct EnvelopeView {
    pub result: Option<Seq<char>>,
    pub session_id: Option<Seq<char>>,
    pub is_error: bool,
}

pub open spec fn opt_json(items: Seq<Json>, i: int) -> Option<Json> {
    if 0 <= i < items.len() {
        Some(items[i])
    } else {
        None
    }
}

/// The envelope a JSON document is read as, the way a struct with
/// defaulted fields is deserialized: an object by member name (unknown
/// members ignored), or an array of at most three values by position;
/// `result` and `session_id` are absent, `null` or a string, `is_error` is
/// absent or a boolean.
pub open spec fn envelope_of(j: Json) -> Option<EnvelopeView> {
    let (r, s, e) = match j {
        Json::Object(fields) => (
            opt_string_field(crate::json::lookup(fields@, "result"@)),
            opt_string_field(crate::json::lookup(fields@, "session_id"@)),
            bool_field(crate::json::lookup(fields@, "is_error"@)),
        ),
        Json::Array(items) => if items@.len() <= 3 {
            (
                opt_string_field(opt_json(items@, 0)),
                opt_string_field(opt_json(items@, 1)),
                bool_field(opt_json(items@, 2)),
            )
        } else {
            (None, None, None)
        },
        _ => (None, None, None),
    };
    match (r, s, e) {
        (Some(result), Some(session_id), Some(is_error)) => Some(
            EnvelopeView { result, session_id, is_error },
        ),
        _ => None,
    }
}

pub open spec fn envelope_view(e: Envelope) -> EnvelopeView {
    EnvelopeView {
        result: crate::json::opt_view(e.result),
        session_id: crate::json::opt_view(e.session_id),
        is_error: e.is_error,
    }
}

pub fn decode_envelope(j: &Json) -> (r: Option<Envelope>)
    ensures
        r matches Some(e) ==> envelope_of(*j) == Some(envelope_view(e)),
        r is None ==> envelope_of(*j) is None,
{
    let (r, s, e) = match j {
        Json::Object(_) => (
            read_opt_string(j.get("result")),
            read_opt_string(j.get("session_id")),
            read_bool(j.get("is_error")),
        ),
        Json::Array(items) => {
            if items.len() <= 3 {
                (
                    read_opt_string(if items.len() > 0 { Some(&items[0]) } else { None }),
                    read_opt_string(if items.len() > 1 { Some(&items[1]) } else { None }),
                    read_bool(if items.len() > 2 { Some(&items[2]) } else { None }),
                )
            } else {
                return None;
            }
        },
        _ => {
            return None;
        },
    };
    match (r, s, e) {
        (Ok(result), Ok(session_id), Ok(is_error)) => Some(Envelope { result, session_id, is_error }),
        _ => None,
    }
}

/// The text an error detail is drawn from: stderr, unless it is blank.
pub open spec fn detail_source(stdout: Seq<char>, stderr: Seq<char>) -> Seq<char> {
    if is_blank(stderr) {
        stdout
    } else {
        stderr
    }
}

/// The `result` message of an envelope the text holds, if any.
pub open spec fn envelope_message(text: Seq<char>) -> Option<Seq<char>> {
    match parsed_json(trim(text)) {
        Some(j) => match envelope_of(j) {
            Some(e) => e.result,
            None => None,
        },
        None => None,
    }
}

/// Where the error text of a failed run cannot be built: the raw text
/// would have to be cut inside a character.
pub open spec fn detail_cut_ok(stdout: Seq<char>, stderr: Seq<char>) -> bool {
    let d = detail_source(stdout, stderr);
    envelope_message(d) is Some || byte_cut_ok(d, 2000)
}

/// The error text of a failed run: the envelope's own `result` message
/// when the detail is an envelope carrying one, else the raw detail cut to
/// 2000 bytes.
pub open spec fn error_detail_spec(stdout: Seq<char>, stderr: Seq<char>) -> Seq<char> {
    let d = detail_source(stdout, stderr);
    match envelope_message(d) {
        Some(m) => m,
        None => byte_truncate(d, 2000, "... [truncated]"@),
    }
}

fn envelope_message_exec(text: &str) -> (r: Option<String>)
    ensures
        crate::json::opt_view(r) == envelope_message(text@),
{
    let t = trim_str(text);
    match parse_json(t.as_str()) {
        Ok(j) => match decode_envelope(&j) {
            Some(e) => e.result,
            None => None,
        },
        Err(_) => None,
    }
}

/// Picks the error text for a non-zero exit. The agent CLI can exit non-zero
/// while still writing a well-formed envelope (an API-level error such as
/// "Credit balance is too low"): then just its `result` message is used.
pub fn error_detail(stdout: &str, stderr: &str) -> (r: String)
    requires
        detail_cut_ok(stdout@, stderr@),
    ensures
        r@ == error_detail_spec(stdout@, stderr@),
{
    let detail = if is_blank_str(stderr) { stdout } else { stderr };
    match envelope_message_exec(detail) {
        Some(m) => m,
        None => truncate_bytes(detail, 2000, "... [truncated]"),
    }
}

/// [`error_detail`] on any input: `None` exactly where building the text
/// would have to cut a character in two.
pub fn checked_error_detail(stdout: &str, stderr: &str) -> (r: Option<String>)
    ensures
        r is None <==> !detail_cut_ok(stdout@, stderr@),
        r matches Some(d) ==> d@ == error_detail_spec(stdout@, stderr@),
{
    let detail = if is_blank_str(stderr) { stdout } else { stderr };
    match envelope_message_exec(detail) {
        Some(m) => Some(m),
        None => {
            if crate::text::fits_or_boundary(detail, 2000) {
                Some(truncate_bytes(detail, 2000, "... [truncated]"))
            } else {
                None
            }
        },
    }
}


/// The envelope a reply holds, when its trimmed text is one.
pub open spec fn envelope_read(stdout: Seq<char>) -> Option<EnvelopeView> {
    match parsed_json(trim(stdout)) {
        Some(j) => envelope_of(j),
        None => None,
    }
}

/// Where a reply cannot be read without cutting a character in two: a
/// failed run whose error text needs cutting, or an unreadable envelope
/// whose raw text needs cutting for the error message.
pub open spec fn reply_cut_ok(success: bool, stdout: Seq<char>, stderr: Seq<char>) -> bool {
    if success {
        envelope_read(stdout) is Some || byte_cut_ok(stdout, 500)
    } else {
        detail_cut_ok(stdout, stderr)
    }
}

pub open spec fn result_view(r: AgentResult) -> (Seq<char>, Option<Json>, Option<Seq<char>>) {
    (r.raw_text@, r.structured, crate::json::opt_view(r.session_id))
}

/// How a finished agent run is read: a failed run is a non-zero exit
/// carrying [`error_detail_spec`]; otherwise the envelope decides. An
/// unreadable envelope is malformed output, `is_error` is a non-zero exit
/// with the envelope's message, a missing `result` is malformed output,
/// and otherwise the `result` text is the turn's raw text (also read as
/// JSON when it is JSON) with the envelope's session id.
pub open spec fn reply_matches(success: bool, stdout: Seq<char>, stderr: Seq<char>, r: Result<AgentResult, AgentError>) -> bool {
    if !success {
        r matches Err(AgentError::NonZeroExit(d)) && d@ == error_detail_spec(stdout, stderr)
    } else {
        match envelope_read(stdout) {
            None => r matches Err(AgentError::MalformedOutput(m)) && crate::text::starts_with(
                m@,
                "envelope: "@,
            ) && crate::text::ends_with(
                m@,
                "; raw: "@ + byte_truncate(stdout, 500, "... [truncated]"@),
            ),
            Some(e) => if e.is_error {
                r matches Err(AgentError::NonZeroExit(d)) && d@ == (match e.result {
                    Some(m) => m,
                    None => "the coding agent reported is_error=true"@,
                })
            } else {
                match e.result {
                    None => r matches Err(AgentError::MalformedOutput(m)) && m@
                        == "envelope had no `result` field"@,
                    Some(text) => r matches Ok(res) && result_view(res) == (
                        text,
                        parsed_json(text),
                        e.session_id,
                    ),
                }
            },
        }
    }
}

fn read_reply(stdout: &str) -> (r: Result<Result<AgentResult, AgentError>, String>)
    ensures
        r matches Ok(x) ==> envelope_read(stdout@) is Some && reply_matches(true, stdout@, seq![], x),
        r matches Err(reason) ==> envelope_read(stdout@) is None,
{
    let t = trim_str(stdout);
    let j = match parse_json(t.as_str()) {
        Ok(j) => j,
        Err(e) => {
            return Err(e);
        },
    };
    let env = match decode_envelope(&j) {
        Some(e) => e,
        None => {
            return Err(copy_str("not a result envelope"));
        },
    };
    if env.is_error {
        return Ok(
            Err(
                AgentError::NonZeroExit(
                    match env.result {
                        Some(m) => m,
                        None => copy_str("the coding agent reported is_error=true"),
                    },
                ),
            ),
        );
    }
    match env.result {
        None => Ok(Err(AgentError::MalformedOutput(copy_str("envelope had no `result` field")))),
        Some(raw_text) => {
            let structured = match parse_json(raw_text.as_str()) {
                Ok(v) => Some(v),
                Err(_) => None,
            };
            Ok(Ok(AgentResult { raw_text, structured, session_id: env.session_id }))
        },
    }
}

fn malformed_envelope(reason: &str, stdout: &str) -> (r: AgentError)
    requires
        byte_cut_ok(stdout@, 500),
    ensures
        r matches AgentError::MalformedOutput(m) && crate::text::starts_with(m@, "envelope: "@)
            && crate::text::ends_with(
            m@,
            "; raw: "@ + byte_truncate(stdout@, 500, "... [truncated]"@),
        ),
{
    let mut m = copy_str("envelope: ");
    crate::text::push_str(&mut m, reason);
    crate::text::push_str(&mut m, "; raw: ");
    let raw = truncate_bytes(stdout, 500, "... [truncated]");
    crate::text::push_str(&mut m, raw.as_str());
    proof {
        let tail = "; raw: "@ + raw@;
        assert(m@ =~= "envelope: "@ + reason@ + tail);
        assert(m@.take("envelope: "@.len() as int) =~= "envelope: "@);
        assert(m@.skip(m@.len() - tail.len()) =~= tail);
    }
    AgentError::MalformedOutput(m)
}

/// Reads a finished agent run (its success, stdout and stderr) as the
/// turn's result.
pub fn interpret_reply(success: bool, stdout: &str, stderr: &str) -> (r: Result<AgentResult, AgentError>)
    requires
        reply_cut_ok(success, stdout@, stderr@),
    ensures
        reply_matches(success, stdout@, stderr@, r),
{
    if !success {
        return Err(AgentError::NonZeroExit(error_detail(stdout, stderr)));
    }
    match read_reply(stdout) {
        Ok(x) => x,
        Err(reason) => Err(malformed_envelope(reason.as_str(), stdout)),
    }
}

/// [`interpret_reply`] on any input: `None` exactly where reading the
/// reply would have to cut a character in two.
pub fn checked_interpret_reply(success: bool, stdout: &str, stderr: &str) -> (r: Option<Result<AgentResult, AgentError>>)
    ensures
        r is None <==> !reply_cut_ok(success, stdout@, stderr@),
        r matches Some(x) ==> reply_matches(success, stdout@, stderr@, x),
{
    if !success {
        return match checked_error_detail(stdout, stderr) {
            Some(d) => Some(Err(AgentError::NonZeroExit(d))),
            None => None,
        };
    }
    match read_reply(stdout) {
        Ok(x) => Some(x),
        Err(reason) => {
            if crate::text::fits_or_boundary(stdout, 500) {
                Some(Err(malformed_envelope(reason.as_str(), stdout)))
            } else {
                None
            }
        },
    }
}


// ---------------------------------------------------------------------
// Laws
// ---------------------------------------------------------------------

/// `flag` and then `value` sit side by side in `args`, both before its
/// last element.
pub open spec fn passes(args: Seq<Seq<char>>, flag: Seq<char>, value: Seq<char>) -> bool {
    exists|i: int| 0 <= i && i + 2 < args.len() && #[trigger] args[i] == flag && args[i + 1] == value
}

/// Every setting a turn carries reaches the agent CLI as its flag followed
/// by its value, before the prompt, which comes last: the session to
/// resume, the model, the system prompt, the spend cap and the MCP
/// configuration; and the arguments always start with print mode and a
/// JSON envelope.
pub proof fn lemma_turn_settings_reach_the_agent(r: AgentRequest)
    ensures
        claude_args_spec(r).len() >= 4,
        claude_args_spec(r).last() == r.prompt@,
        claude_args_spec(r).take(3) == seq!["-p"@, "--output-format"@, "json"@],
        r.resume_session_id matches Some(s) ==> passes(claude_args_spec(r), "--resume"@, s@),
        r.model matches Some(m) ==> passes(claude_args_spec(r), "--model"@, m@),
        r.system_prompt matches Some(p) ==> passes(claude_args_spec(r), "--append-system-prompt"@, p@),
        r.max_budget_usd matches Some(b) ==> passes(claude_args_spec(r), "--max-budget-usd"@, b@),
        r.mcp_config matches Some(c) ==> passes(claude_args_spec(r), "--mcp-config"@, c@),
{
    let a0 = seq!["-p"@, "--output-format"@, "json"@];
    let a1 = (if r.tools@.len() > 0 { seq!["--tools"@, join(r.tools.deep_view(), ","@)] } else { seq![] });
    let a2 = permission_args_spec(r.permission_mode);
    let a3 = opt_pair("--model"@, r.model);
    let a4 = opt_pair("--append-system-prompt"@, r.system_prompt);
    let a5 = (match r.json_schema { Some(s) => seq!["--json-schema"@, schema_text_of(s)], None => seq![] });
    let a6 = opt_pair("--max-budget-usd"@, r.max_budget_usd);
    let a7 = opt_pair("--resume"@, r.resume_session_id);
    let a8 = (match r.mcp_config { Some(c) => seq!["--mcp-config"@, c@, "--strict-mcp-config"@], None => seq![] });
    let a9 = seq![r.prompt@];
    let args = claude_args_spec(r);
    assert(args =~= a0 + a1 + a2 + a3 + a4 + a5 + a6 + a7 + a8 + a9);
    assert(args.take(3) =~= a0);
    let p3 = a0 + a1 + a2;
    let p4 = p3 + a3;
    let p5 = p4 + a4 + a5;
    let p6 = p5 + a6;
    let p7 = p6 + a7;
    let tail = a8 + a9;
    if r.model is Some {
        assert(args[p3.len() as int] == a3[0]);
        assert(args[p3.len() + 1int] == a3[1]);
    }
    if r.system_prompt is Some {
        assert(args[p4.len() as int] == a4[0]);
        assert(args[p4.len() + 1int] == a4[1]);
    }
    if r.max_budget_usd is Some {
        assert(args[p5.len() as int] == a6[0]);
        assert(args[p5.len() + 1int] == a6[1]);
    }
    if r.resume_session_id is Some {
        assert(args[p6.len() as int] == a7[0]);
        assert(args[p6.len() + 1int] == a7[1]);
    }
    if r.mcp_config is Some {
        assert(args[p7.len() as int] == a8[0]);
        assert(args[p7.len() + 1int] == a8[1]);
    }
}

} // verus!
