//! The OpenAI Codex CLI (`codex exec`) as the execution engine, the
//! counterpart to the primary agent CLI: the command line a turn is run
//! with, and how its `--json` event stream and last-message file are read.
//! Spawning the process and reading the file are the caller's part.
use vstd::prelude::*;

use super::executor::{AgentError, AgentRequest, AgentResult, PermissionMode};
use crate::json::{opt_string_field, parse_json, parsed_json, read_opt_string, Json};
use crate::text::{
    byte_cut_ok, byte_truncate, copy_str, is_blank, is_blank_str, lines, push_str, split_lines,
    string_from_chars, trim, trim_str, truncate_bytes,
};

verus! {

/// Where the Codex executable was found.
pub struct CodexExecutor {
    codex_path: String,
}

impl CodexExecutor {
    pub fn at(codex_path: String) -> (r: CodexExecutor)
        ensures
            r.path_spec() == codex_path@,
    {
        CodexExecutor { codex_path }
    }

    pub closed spec fn path_spec(&self) -> Seq<char> {
        self.codex_path@
    }

    pub fn path(&self) -> (r: &String)
        ensures
            r@ == self.path_spec(),
    {
        &self.codex_path
    }
}

// ---------------------------------------------------------------------
// The command line
// ---------------------------------------------------------------------

/// The `--sandbox` level each permission mode runs under (approval is
/// always `never`: nothing can answer a prompt in an unattended run).
/// Codex's sandboxes do not name individual tools, so `request.tools` has
/// no counterpart here.
pub open spec fn sandbox_text(m: PermissionMode) -> Seq<char> {
    match m {
        PermissionMode::ReadOnly => "read-only"@,
        PermissionMode::AcceptEdits => "workspace-write"@,
        PermissionMode::ExecuteOnly => "read-only"@,
    }
}

fn sandbox_of(m: PermissionMode) -> (r: &'static str)
    ensures
        r@ == sandbox_text(m),
{
    match m {
        PermissionMode::ReadOnly => "read-only",
        PermissionMode::AcceptEdits => "workspace-write",
        PermissionMode::ExecuteOnly => "read-only",
    }
}

/// The request fields Codex cannot honor, checked in this order: an MCP
/// configuration (Codex reads its servers from its own config file) and a
/// spend cap (Codex has no such flag).
pub open spec fn codex_unsupported(r: AgentRequest) -> Option<Seq<char>> {
    if r.mcp_config is Some {
        Some(
            "mcp_config: the Codex CLI configures MCP servers through its own $CODEX_HOME/config.toml, not a single pass-through file with a strict flag like the primary agent's --mcp-config/--strict-mcp-config"@,
        )
    } else if r.max_budget_usd is Some {
        Some("max_budget_usd: the Codex CLI has no documented spend-cap flag"@)
    } else {
        None
    }
}

/// The prompt text: Codex has no separate system-prompt flag, so a system
/// prompt is folded in front of the prompt.
pub open spec fn codex_prompt_spec(r: AgentRequest) -> Seq<char> {
    match r.system_prompt {
        Some(s) => s@ + "\n\n"@ + r.prompt@,
        None => r.prompt@,
    }
}

/// The arguments `codex` is started with: `exec`, an optional
/// `resume <session>`, the JSON event stream, the working directory, the
/// sandbox, the optional model and output schema file, the file the last
/// message is written to, and the prompt last.
pub open spec fn codex_args_spec(r: AgentRequest, schema_file: Option<Seq<char>>, output_file: Seq<char>) -> Seq<Seq<char>> {
    seq!["exec"@]
        + (match r.resume_session_id { Some(s) => seq!["resume"@, s@], None => seq![] })
        + seq!["--json"@, "--skip-git-repo-check"@, "--cd"@, r.working_directory@]
        + seq!["--sandbox"@, sandbox_text(r.permission_mode), "--ask-for-approval"@, "never"@]
        + (match r.model { Some(m) => seq!["--model"@, m@], None => seq![] })
        + (match schema_file { Some(f) => seq!["--output-schema"@, f], None => seq![] })
        + seq!["--output-last-message"@, output_file]
        + seq![codex_prompt_spec(r)]
}

pub open spec fn opt_str_view(o: Option<&str>) -> Option<Seq<char>> {
    match o {
        Some(s) => Some(s@),
        None => None,
    }
}

/// The prompt handed to `codex exec`.
pub fn codex_prompt(request: &AgentRequest) -> (r: String)
    ensures
        r@ == codex_prompt_spec(*request),
{
    match &request.system_prompt {
        Some(s) => {
            let mut p = s.clone();
            push_str(&mut p, "\n\n");
            push_str(&mut p, request.prompt.as_str());
            p
        },
        None => request.prompt.clone(),
    }
}

/// The command line of one turn, or the `Unsupported` error for a request
/// Codex cannot honor. `schema_file` is where the output schema was
/// written, when the request asks for one; `output_file` receives the last
/// message.
/// What Codex refuses a request with, checked before anything is prepared
/// for the run: `Unsupported` naming the first field it cannot honor.
pub fn codex_refusal(request: &AgentRequest) -> (r: Option<AgentError>)
    ensures
        codex_unsupported(*request) matches Some(m) ==> (r matches Some(AgentError::Unsupported(d)) && d@ == m),
        codex_unsupported(*request) is None ==> r is None,
{
    if request.mcp_config.is_some() {
        return Some(AgentError::Unsupported(copy_str(
            "mcp_config: the Codex CLI configures MCP servers through its own $CODEX_HOME/config.toml, not a single pass-through file with a strict flag like the primary agent's --mcp-config/--strict-mcp-config",
        )));
    }
    if request.max_budget_usd.is_some() {
        return Some(AgentError::Unsupported(copy_str(
            "max_budget_usd: the Codex CLI has no documented spend-cap flag",
        )));
    }
    None
}

pub fn codex_args(request: &AgentRequest, schema_file: Option<&str>, output_file: &str) -> (r: Result<Vec<String>, AgentError>)
    ensures
        codex_unsupported(*request) matches Some(m) ==> (r matches Err(AgentError::Unsupported(d)) && d@ == m),
        codex_unsupported(*request) is None ==> (r matches Ok(args) && args.deep_view() == codex_args_spec(
            *request,
            opt_str_view(schema_file),
            output_file@,
        )),
{
    match codex_refusal(request) {
        Some(e) => {
            return Err(e);
        },
        None => {},
    }
    let mut args: Vec<String> = Vec::new();
    args.push(copy_str("exec"));
    let ghost a0 = args.deep_view();
    match &request.resume_session_id {
        Some(s) => {
            args.push(copy_str("resume"));
            args.push(s.clone());
        },
        None => {},
    }
    let ghost a1 = args.deep_view();
    args.push(copy_str("--json"));
    args.push(copy_str("--skip-git-repo-check"));
    args.push(copy_str("--cd"));
    args.push(request.working_directory.clone());
    args.push(copy_str("--sandbox"));
    args.push(copy_str(sandbox_of(request.permission_mode)));
    args.push(copy_str("--ask-for-approval"));
    args.push(copy_str("never"));
    let ghost a2 = args.deep_view();
    match &request.model {
        Some(m) => {
            args.push(copy_str("--model"));
            args.push(m.clone());
        },
        None => {},
    }
    let ghost a3 = args.deep_view();
    match schema_file {
        Some(f) => {
            args.push(copy_str("--output-schema"));
            args.push(copy_str(f));
        },
        None => {},
    }
    let ghost a4 = args.deep_view();
    args.push(copy_str("--output-last-message"));
    args.push(copy_str(output_file));
    args.push(codex_prompt(request));
    proof {
        assert(a0 =~= seq!["exec"@]);
        if request.resume_session_id is Some {
            assert(a1 =~= a0 + seq!["resume"@, request.resume_session_id->0@]);
        } else {
            assert(a1 =~= a0 + Seq::<Seq<char>>::empty());
        }
        assert(a2 =~= a1 + seq!["--json"@, "--skip-git-repo-check"@, "--cd"@, request.working_directory@]
            + seq!["--sandbox"@, sandbox_text(request.permission_mode), "--ask-for-approval"@, "never"@]);
        if request.model is Some {
            assert(a3 =~= a2 + seq!["--model"@, request.model->0@]);
        } else {
            assert(a3 =~= a2 + Seq::<Seq<char>>::empty());
        }
        match schema_file {
            Some(f) => assert(a4 =~= a3 + seq!["--output-schema"@, f@]),
            None => assert(a4 =~= a3 + Seq::<Seq<char>>::empty()),
        }
        assert(args.deep_view() =~= codex_args_spec(*request, opt_str_view(schema_file), output_file@));
    }
    Ok(args)
}

// ---------------------------------------------------------------------
// The reply
// ---------------------------------------------------------------------

/// One decoded line of the `--json` event stream: its `type` and, on a
/// `thread.started` event, the conversation id.
pub struct StreamEventView {
    pub kind: Seq<char>,
    pub thread_id: Option<Seq<char>>,
}

pub open spec fn item_at(items: Seq<Json>, i: int) -> Option<Json> {
    if 0 <= i < items.len() {
        Some(items[i])
    } else {
        None
    }
}

/// Serde's reading of a `String` field with `#[serde(default)]`: absent is
/// empty, a string is itself, anything else fails.
pub open spec fn string_field(v: Option<Json>) -> Option<Seq<char>> {
    match v {
        None => Some(seq![]),
        Some(Json::Str(s)) => Some(s@),
        _ => None,
    }
}

/// A stream line read as an event, the way a struct with defaulted fields
/// is deserialized: an object by member name (others ignored) or an array
/// of at most two values by position.
pub open spec fn stream_event_of(j: Json) -> Option<StreamEventView> {
    let (k, t) = match j {
        Json::Object(fields) => (
            string_field(crate::json::lookup(fields@, "type"@)),
            opt_string_field(crate::json::lookup(fields@, "thread_id"@)),
        ),
        Json::Array(items) => if items@.len() <= 2 {
            (string_field(item_at(items@, 0)), opt_string_field(item_at(items@, 1)))
        } else {
            (None, None)
        },
        _ => (None, None),
    };
    match (k, t) {
        (Some(kind), Some(thread_id)) => Some(StreamEventView { kind, thread_id }),
        _ => None,
    }
}

/// The conversation id a line announces: a `thread.started` event that
/// carries one.
pub open spec fn line_thread_id(line: Seq<char>) -> Option<Seq<char>> {
    match parsed_json(line) {
        Some(j) => match stream_event_of(j) {
            Some(e) => if e.kind == "thread.started"@ {
                e.thread_id
            } else {
                None
            },
            None => None,
        },
        None => None,
    }
}

/// The first conversation id announced among `ls`.
pub open spec fn first_thread_id(ls: Seq<Seq<char>>) -> Option<Seq<char>>
    decreases ls.len(),
{
    if ls.len() == 0 {
        None
    } else {
        match line_thread_id(ls[0]) {
            Some(t) => Some(t),
            None => first_thread_id(ls.drop_first()),
        }
    }
}

fn read_string_field(v: Option<&Json>) -> (r: Result<String, ()>)
    ensures
        r is Err <==> string_field(crate::json::deref(v)) is None,
        r matches Ok(s) ==> string_field(crate::json::deref(v)) == Some(s@),
{
    match v {
        None => Ok(String::new()),
        Some(Json::Str(s)) => Ok(s.clone()),
        _ => Err(()),
    }
}

fn thread_id_of_line(line: &str) -> (r: Option<String>)
    ensures
        crate::json::opt_view(r) == line_thread_id(line@),
{
    let j = match parse_json(line) {
        Ok(j) => j,
        Err(_) => {
            return None;
        },
    };
    let (k, t) = match &j {
        Json::Object(_) => (read_string_field(j.get("type")), read_opt_string(j.get("thread_id"))),
        Json::Array(items) => {
            if items.len() <= 2 {
                (
                    read_string_field(if items.len() > 0 { Some(&items[0]) } else { None }),
                    read_opt_string(if items.len() > 1 { Some(&items[1]) } else { None }),
                )
            } else {
                return None;
            }
        },
        _ => {
            return None;
        },
    };
    match (k, t) {
        (Ok(kind), Ok(thread_id)) => {
            if crate::text::str_eq(kind.as_str(), "thread.started") {
                thread_id
            } else {
                None
            }
        },
        _ => None,
    }
}

/// The conversation id of a `codex exec --json` run: the `thread_id` of
/// the first `thread.started` event among the stdout lines that carries
/// one. Every other line, JSON or not, is skipped.
pub fn extract_thread_id(stdout: &str) -> (r: Option<String>)
    ensures
        crate::json::opt_view(r) == first_thread_id(lines(stdout@)),
{
    let v = crate::text::chars_of(stdout);
    let ls = split_lines(v.as_slice());
    let ghost all = ls@.map_values(|l: Vec<char>| l@);
    proof { assert(all.skip(0) =~= all); }
    let mut i: usize = 0;
    while i < ls.len()
        invariant
            i <= ls@.len(),
            all == ls@.map_values(|l: Vec<char>| l@),
            all == lines(stdout@),
            first_thread_id(all) == first_thread_id(all.skip(i as int)),
        decreases ls@.len() - i,
    {
        let line = string_from_chars(ls[i].as_slice());
        let t = thread_id_of_line(line.as_str());
        proof {
            let rest = all.skip(i as int);
            assert(rest[0] == line@);
            assert(rest.drop_first() =~= all.skip(i + 1));
        }
        if t.is_some() {
            return t;
        }
        i = i + 1;
    }
    proof {
        assert(all.skip(i as int) =~= Seq::<Seq<char>>::empty());
    }
    None
}

/// The text an error detail is drawn from: stderr (where Codex reports
/// progress and failures), unless it is blank.
pub open spec fn detail_source(stdout: Seq<char>, stderr: Seq<char>) -> Seq<char> {
    if is_blank(stderr) {
        stdout
    } else {
        stderr
    }
}

/// `s` cut to `max` bytes with a `... [truncated]` marker.
pub open spec fn truncated(s: Seq<char>, max: int) -> Seq<char> {
    byte_truncate(s, max, "... [truncated]"@)
}

/// `s` when it fits in `max` bytes, else its first `max` bytes and a
/// `... [truncated]` marker.
pub fn truncate(s: &str, max: usize) -> (r: String)
    requires
        byte_cut_ok(s@, max as int),
    ensures
        r@ == truncated(s@, max as int),
{
    truncate_bytes(s, max, "... [truncated]")
}

/// The error text of a failed run: stderr, or stdout when stderr is
/// blank, cut to 2000 bytes.
pub fn error_detail(stdout: &str, stderr: &str) -> (r: String)
    requires
        byte_cut_ok(detail_source(stdout@, stderr@), 2000),
    ensures
        r@ == truncated(detail_source(stdout@, stderr@), 2000),
{
    let detail = if is_blank_str(stderr) { stdout } else { stderr };
    truncate(detail, 2000)
}

/// Where reading a finished run would have to cut a character in two.
pub open spec fn output_cut_ok(success: bool, stdout: Seq<char>, stderr: Seq<char>, last_message: Result<Seq<char>, Seq<char>>) -> bool {
    if !success {
        byte_cut_ok(detail_source(stdout, stderr), 2000)
    } else {
        last_message is Ok || byte_cut_ok(stdout, 500)
    }
}

/// Whether [`interpret_output`] can read a finished run: see
/// [`output_cut_ok`].
pub fn output_readable(success: bool, stdout: &str, stderr: &str, last_message: &Result<String, String>) -> (r: bool)
    ensures
        r == output_cut_ok(success, stdout@, stderr@, read_view(*last_message)),
{
    if !success {
        let detail = if is_blank_str(stderr) { stdout } else { stderr };
        crate::text::fits_or_boundary(detail, 2000)
    } else {
        last_message.is_ok() || crate::text::fits_or_boundary(stdout, 500)
    }
}

pub open spec fn read_view(r: Result<String, String>) -> Result<Seq<char>, Seq<char>> {
    match r {
        Ok(s) => Ok(s@),
        Err(e) => Err(e@),
    }
}

/// How a finished `codex exec` run is read, given its success, its
/// streams, and the last-message file's text (or the text of the error
/// reading it): a failed run is a non-zero exit with the error detail; an
/// unreadable file is malformed output naming the read error and the cut
/// stdout; otherwise the file's text is the raw text (read as JSON once
/// trimmed, when it is JSON), with the stream's conversation id.
pub open spec fn output_matches(
    success: bool,
    stdout: Seq<char>,
    stderr: Seq<char>,
    last_message: Result<Seq<char>, Seq<char>>,
    r: Result<AgentResult, AgentError>,
) -> bool {
    if !success {
        r matches Err(AgentError::NonZeroExit(d)) && d@ == truncated(detail_source(stdout, stderr), 2000)
    } else {
        match last_message {
            Err(e) => r matches Err(AgentError::MalformedOutput(m)) && m@ == "reading --output-last-message file: "@
                + e + "; stdout: "@ + truncated(stdout, 500),
            Ok(text) => r matches Ok(res) && res.raw_text@ == text && res.structured == parsed_json(trim(text))
                && crate::json::opt_view(res.session_id) == first_thread_id(lines(stdout)),
        }
    }
}

/// Reads a finished `codex exec` run as the turn's result.
pub fn interpret_output(success: bool, stdout: &str, stderr: &str, last_message: Result<String, String>) -> (r: Result<AgentResult, AgentError>)
    requires
        output_cut_ok(success, stdout@, stderr@, read_view(last_message)),
    ensures
        output_matches(success, stdout@, stderr@, read_view(last_message), r),
{
    if !success {
        return Err(AgentError::NonZeroExit(error_detail(stdout, stderr)));
    }
    match last_message {
        Err(e) => {
            let mut m = copy_str("reading --output-last-message file: ");
            push_str(&mut m, e.as_str());
            push_str(&mut m, "; stdout: ");
            let t = truncate(stdout, 500);
            push_str(&mut m, t.as_str());
            Err(AgentError::MalformedOutput(m))
        },
        Ok(raw_text) => {
            let t = trim_str(raw_text.as_str());
            let structured = match parse_json(t.as_str()) {
                Ok(j) => Some(j),
                Err(_) => None,
            };
            let session_id = extract_thread_id(stdout);
            Ok(AgentResult { raw_text, structured, session_id })
        },
    }
}


/// A Codex turn resumes its session right after `exec` (`exec resume
/// <session>`), runs in the request's working directory, never waits for
/// approval, passes the model when one is set, and takes the prompt last.
pub proof fn lemma_codex_turn_settings(r: AgentRequest, schema_file: Option<Seq<char>>, output_file: Seq<char>)
    ensures
        codex_args_spec(r, schema_file, output_file)[0] == "exec"@,
        codex_args_spec(r, schema_file, output_file).last() == codex_prompt_spec(r),
        r.resume_session_id matches Some(s) ==> codex_args_spec(r, schema_file, output_file)[1] == "resume"@
            && codex_args_spec(r, schema_file, output_file)[2] == s@,
        exists|i: int|
            0 <= i && i + 1 < codex_args_spec(r, schema_file, output_file).len() && #[trigger] codex_args_spec(
                r,
                schema_file,
                output_file,
            )[i] == "--cd"@ && codex_args_spec(r, schema_file, output_file)[i + 1] == r.working_directory@,
        exists|i: int|
            0 <= i && i + 1 < codex_args_spec(r, schema_file, output_file).len() && #[trigger] codex_args_spec(
                r,
                schema_file,
                output_file,
            )[i] == "--ask-for-approval"@ && codex_args_spec(r, schema_file, output_file)[i + 1] == "never"@,
        r.model matches Some(m) ==> exists|i: int|
            0 <= i && i + 1 < codex_args_spec(r, schema_file, output_file).len() && #[trigger] codex_args_spec(
                r,
                schema_file,
                output_file,
            )[i] == "--model"@ && codex_args_spec(r, schema_file, output_file)[i + 1] == m@,
{
    let a0 = seq!["exec"@];
    let a1 = (match r.resume_session_id { Some(s) => seq!["resume"@, s@], None => seq![] });
    let a2 = seq!["--json"@, "--skip-git-repo-check"@, "--cd"@, r.working_directory@];
    let a3 = seq!["--sandbox"@, sandbox_text(r.permission_mode), "--ask-for-approval"@, "never"@];
    let a4 = (match r.model { Some(m) => seq!["--model"@, m@], None => seq![] });
    let a5 = (match schema_file { Some(f) => seq!["--output-schema"@, f], None => seq![] });
    let a6 = seq!["--output-last-message"@, output_file];
    let a7 = seq![codex_prompt_spec(r)];
    let args = codex_args_spec(r, schema_file, output_file);
    assert(args =~= a0 + a1 + a2 + a3 + a4 + a5 + a6 + a7);
    let p2 = a0 + a1;
    let p3 = p2 + a2;
    let p4 = p3 + a3;
    assert(args[p2.len() + 2int] == "--cd"@);
    assert(args[p2.len() + 3int] == r.working_directory@);
    assert(args[p3.len() + 2int] == "--ask-for-approval"@);
    assert(args[p3.len() + 3int] == "never"@);
    if r.model is Some {
        assert(args[p4.len() as int] == a4[0]);
        assert(args[p4.len() + 1int] == a4[1]);
    }
}

} // verus!
