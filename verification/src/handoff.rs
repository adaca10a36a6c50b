//! Handing a paused execution to a cloud agent session: firing a
//! routine with the open question spelled out, so a human can answer it
//! from a browser. Additive only: the question stays open and `resume` keeps
//! working; a handoff that fails never fails the run. Sending the request
//! (through `curl`, keeping the token and payload off the command line)
//! is the caller's part.
use vstd::prelude::*;

use crate::domain::error::KsforgeError;
use crate::domain::execution::{Execution, ExecutionView, GateView};
use crate::json::{json_parse, member_str, parse_json};
use crate::text::{copy_str, first_line, first_line_str, lines, push_str, starts_with, trim, trim_str};

verus! {

/// The environment variable holding the routine's bearer token; never a
/// command-line flag, where every process on the machine could see it.
pub const TOKEN_ENV: &'static str = "KSFORGE_HANDOFF_TOKEN";

/// The environment variable overriding the beta header, which the
/// research-preview endpoint versions.
pub const BETA_ENV: &'static str = "KSFORGE_HANDOFF_BETA";

pub const DEFAULT_BETA: &'static str = "experimental-cc-routine-2026-04-01";

pub const ANTHROPIC_VERSION: &'static str = "2023-06-01";

/// A text in `Debug` form: quoted, with quotes, backslashes and control
/// characters escaped.
pub uninterp spec fn debug_quoted(s: Seq<char>) -> Seq<char>;

/// `format!("{s:?}")` for a string. Claims only that the text is a
/// function of `s`, named `debug_quoted`.
#[verifier::external_body]
fn debug_text(s: &str) -> (r: String)
    ensures
        r@ == debug_quoted(s@),
{
    format!("{s:?}")
}

/// Everything needed to fire one routine.
pub struct Config {
    routine_url: String,
    token: String,
    beta: String,
}

pub open spec fn https_url_refusal(url: Seq<char>) -> Seq<char> {
    "--handoff-session must be an https:// routine fire URL, got "@ + debug_quoted(url)
}

pub open spec fn missing_token() -> Seq<char> {
    "--handoff-session is set but KSFORGE_HANDOFF_TOKEN is empty; generate a routine token on the routines page and pass it as a secret"@
}

impl Config {
    pub closed spec fn url_spec(&self) -> Seq<char> {
        self.routine_url@
    }

    pub closed spec fn token_spec(&self) -> Seq<char> {
        self.token@
    }

    pub closed spec fn beta_spec(&self) -> Seq<char> {
        self.beta@
    }

    /// The configuration from `--handoff-session` and the environment's
    /// token and beta values (as read, if set): the URL, trimmed, must
    /// start with `https://`; the token, trimmed, must not be empty; a
    /// blank beta value falls back to the default.
    pub fn resolve(routine_url: &str, token_env: Option<String>, beta_env: Option<String>) -> (r: Result<Config, KsforgeError>)
        ensures
            !starts_with(trim(routine_url@), "https://"@) ==> (r matches Err(KsforgeError::Config(m)) && m@
                == https_url_refusal(trim(routine_url@))),
            starts_with(trim(routine_url@), "https://"@) && (token_env is None || trim(token_env->0@).len() == 0)
                ==> (r matches Err(KsforgeError::Config(m)) && m@ == missing_token()),
            starts_with(trim(routine_url@), "https://"@) && token_env is Some && trim(token_env->0@).len() > 0
                ==> (r matches Ok(c) && c.url_spec() == trim(routine_url@) && c.token_spec() == trim(
                token_env->0@,
            ) && c.beta_spec() == (if beta_env is Some && trim(beta_env->0@).len() > 0 {
                beta_env->0@
            } else {
                DEFAULT_BETA@
            })),
    {
        let url = trim_str(routine_url);
        let uv = crate::text::chars_of(url.as_str());
        if !crate::text::has_prefix_str(uv.as_slice(), "https://") {
            let mut m = copy_str("--handoff-session must be an https:// routine fire URL, got ");
            let d = debug_text(url.as_str());
            push_str(&mut m, d.as_str());
            return Err(KsforgeError::Config(m));
        }
        let token = match token_env {
            Some(t) => trim_str(t.as_str()),
            None => String::new(),
        };
        if token.unicode_len() == 0 {
            return Err(KsforgeError::Config(copy_str(
                "--handoff-session is set but KSFORGE_HANDOFF_TOKEN is empty; generate a routine token on the routines page and pass it as a secret",
            )));
        }
        let beta = match beta_env {
            Some(b) => {
                if crate::text::is_blank_str(b.as_str()) {
                    copy_str(DEFAULT_BETA)
                } else {
                    b
                }
            },
            None => copy_str(DEFAULT_BETA),
        };
        Ok(Config { routine_url: url, token, beta })
    }

    /// The header the token is sent in, written to `curl`'s standard input.
    pub fn routine_url(&self) -> (r: &String)
        ensures
            r@ == self.url_spec(),
    {
        &self.routine_url
    }

    pub fn authorization_header(&self) -> (r: String)
        ensures
            r@ == "Authorization: Bearer "@ + self.token_spec() + "\n"@,
    {
        let mut h = copy_str("Authorization: Bearer ");
        push_str(&mut h, self.token.as_str());
        push_str(&mut h, "\n");
        h
    }

    /// `curl`'s arguments for one fire: the header from standard input,
    /// the beta and version headers, the JSON body from `payload_file`,
    /// and the routine URL last.
    pub fn curl_args(&self, payload_file: &str) -> (r: Vec<String>)
        ensures
            r.deep_view() == seq![
                "-sS"@, "-X"@, "POST"@, "-H"@, "@-"@, "-H"@, "anthropic-beta: "@ + self.beta_spec(),
                "-H"@, "anthropic-version: "@ + ANTHROPIC_VERSION@, "-H"@, "content-type: application/json"@,
                "--data-binary"@, "@"@ + payload_file@, self.url_spec(),
            ],
    {
        let mut args: Vec<String> = Vec::new();
        args.push(copy_str("-sS"));
        args.push(copy_str("-X"));
        args.push(copy_str("POST"));
        args.push(copy_str("-H"));
        args.push(copy_str("@-"));
        args.push(copy_str("-H"));
        let mut beta = copy_str("anthropic-beta: ");
        push_str(&mut beta, self.beta.as_str());
        args.push(beta);
        args.push(copy_str("-H"));
        let mut version = copy_str("anthropic-version: ");
        push_str(&mut version, ANTHROPIC_VERSION);
        args.push(version);
        args.push(copy_str("-H"));
        args.push(copy_str("content-type: application/json"));
        args.push(copy_str("--data-binary"));
        let mut data = copy_str("@");
        push_str(&mut data, payload_file);
        args.push(data);
        args.push(self.routine_url.clone());
        proof {
            assert(args.deep_view() =~= seq![
                "-sS"@, "-X"@, "POST"@, "-H"@, "@-"@, "-H"@, "anthropic-beta: "@ + self.beta_spec(),
                "-H"@, "anthropic-version: "@ + ANTHROPIC_VERSION@, "-H"@, "content-type: application/json"@,
                "--data-binary"@, "@"@ + payload_file@, self.url_spec(),
            ]);
        }
        args
    }
}

/// The cloud session a fired routine created.
#[derive(Debug, PartialEq, Eq)]
pub struct HandoffSession {
    pub session_id: String,
    pub session_url: String,
}

pub open spec fn options_part(g: GateView) -> Seq<char> {
    if g.options.len() > 0 {
        "\nOptions:\n"@ + option_items(g.options)
    } else {
        seq![]
    }
}

pub open spec fn recommended_part(g: GateView) -> Seq<char> {
    match g.recommended_option {
        Some(r) => "\nRecommended option: "@ + r + "\n"@,
        None => seq![],
    }
}

pub open spec fn rationale_part(g: GateView) -> Seq<char> {
    if g.context.len() > 0 {
        "Rationale: "@ + g.context + "\n"@
    } else {
        seq![]
    }
}

pub open spec fn completed_part(g: GateView) -> Seq<char> {
    if g.completed.len() > 0 {
        "\nAlready completed before this decision:\n"@ + crate::github::report::bullets(g.completed)
    } else {
        seq![]
    }
}

pub open spec fn gate_text(id: Seq<char>, g: GateView) -> Seq<char> {
    "Gate: "@ + g.id + "\n\n"@ + "Question:\n"@ + g.question + "\n"@ + options_part(g) + recommended_part(g)
        + rationale_part(g) + completed_part(g)
        + "\nTo apply a decision, run this from a checkout of the repository:\nksforge resume "@ + id
        + " --decision <option-id>\n"@
}

pub open spec fn option_items(options: Seq<crate::domain::execution::OptionView>) -> Seq<char>
    decreases options.len(),
{
    if options.len() == 0 {
        seq![]
    } else {
        option_items(options.drop_last()) + "- "@ + options.last().id + " — "@ + options.last().label + "\n"@
    }
}

/// The text a routine is fired with: everything a session that has only
/// just cloned the repository needs to answer the question, and how to apply
/// the answer. An execution with no open gate says so and invents no
/// question.
pub open spec fn payload(e: ExecutionView) -> Seq<char> {
    "A ksforge execution paused because the coding agent needs a human decision.\n\nExecution: "@ + e.id
        + "\nCapability: "@ + e.capability + "\n"@ + (if lines(e.change_request).len() > 0 {
        "Change request: "@ + first_line(e.change_request) + "\n"@
    } else {
        seq![]
    }) + match e.pending_question {
        Some(g) => gate_text(e.id, g),
        None => "\nNo open gate was recorded on this execution.\n"@,
    }
}

fn push_option_items(s: &mut String, options: &Vec<crate::domain::execution::DecisionOption>)
    ensures
        final(s)@ == old(s)@ + option_items(options.deep_view()),
{
    let ghost base = s@;
    let ghost ov = options.deep_view();
    let mut i: usize = 0;
    while i < options.len()
        invariant
            i <= options@.len(),
            ov == options.deep_view(),
            s@ == base + option_items(ov.take(i as int)),
        decreases options@.len() - i,
    {
        push_str(s, "- ");
        push_str(s, options[i].id.as_str());
        push_str(s, " — ");
        push_str(s, options[i].label.as_str());
        push_str(s, "\n");
        proof {
            assert(ov.take(i + 1).drop_last() =~= ov.take(i as int));
            assert(ov.take(i + 1).last() == options@[i as int]@);
        }
        i = i + 1;
    }
    proof {
        assert(ov.take(i as int) =~= ov);
    }
}

fn push_items(s: &mut String, items: &Vec<String>)
    ensures
        final(s)@ == old(s)@ + crate::github::report::bullets(items.deep_view()),
{
    let ghost base = s@;
    let ghost cv = items.deep_view();
    let mut i: usize = 0;
    while i < items.len()
        invariant
            i <= items@.len(),
            cv == items.deep_view(),
            s@ == base + crate::github::report::bullets(cv.take(i as int)),
        decreases items@.len() - i,
    {
        push_str(s, "- ");
        push_str(s, items[i].as_str());
        push_str(s, "\n");
        proof {
            assert(cv.take(i + 1).drop_last() =~= cv.take(i as int));
            assert(cv.take(i + 1).last() == items@[i as int]@);
        }
        i = i + 1;
    }
    proof {
        assert(cv.take(i as int) =~= cv);
    }
}

fn push_options_part(s: &mut String, gate: &crate::domain::execution::HumanDecisionRequest)
    ensures
        final(s)@ == old(s)@ + options_part(gate@),
{
    let ghost g0 = s@;
    if gate.options.len() > 0 {
        push_str(s, "\nOptions:\n");
        push_option_items(s, &gate.options);
    }
    proof {
        assert(s@ =~= g0 + options_part(gate@));
    }
}

fn push_recommended_part(s: &mut String, gate: &crate::domain::execution::HumanDecisionRequest)
    ensures
        final(s)@ == old(s)@ + recommended_part(gate@),
{
    let ghost g0 = s@;
    match &gate.recommended_option {
        Some(r) => {
            push_str(s, "\nRecommended option: ");
            push_str(s, r.as_str());
            push_str(s, "\n");
        },
        None => {},
    }
    proof {
        assert(s@ =~= g0 + recommended_part(gate@));
    }
}

fn push_rationale_part(s: &mut String, gate: &crate::domain::execution::HumanDecisionRequest)
    ensures
        final(s)@ == old(s)@ + rationale_part(gate@),
{
    let ghost g0 = s@;
    if gate.context.unicode_len() > 0 {
        push_str(s, "Rationale: ");
        push_str(s, gate.context.as_str());
        push_str(s, "\n");
    }
    proof {
        assert(s@ =~= g0 + rationale_part(gate@));
    }
}

fn push_completed_part(s: &mut String, gate: &crate::domain::execution::HumanDecisionRequest)
    ensures
        final(s)@ == old(s)@ + completed_part(gate@),
{
    let ghost g0 = s@;
    if gate.completed.len() > 0 {
        push_str(s, "\nAlready completed before this decision:\n");
        push_items(s, &gate.completed);
    }
    proof {
        assert(s@ =~= g0 + completed_part(gate@));
    }
}

fn push_gate(s: &mut String, id: &str, gate: &crate::domain::execution::HumanDecisionRequest)
    ensures
        final(s)@ == old(s)@ + gate_text(id@, gate@),
{
    let ghost g0 = s@;
    push_str(s, "Gate: ");
    push_str(s, gate.id.0.as_str());
    push_str(s, "\n\n");
    push_str(s, "Question:\n");
    push_str(s, gate.question.as_str());
    push_str(s, "\n");
    push_options_part(s, gate);
    push_recommended_part(s, gate);
    push_rationale_part(s, gate);
    push_completed_part(s, gate);
    push_str(s, "\nTo apply a decision, run this from a checkout of the repository:\nksforge resume ");
    push_str(s, id);
    push_str(s, " --decision <option-id>\n");
    proof {
        assert(s@ =~= g0 + gate_text(id@, gate@));
    }
}

pub fn payload_for(execution: &Execution) -> (r: String)
    ensures
        r@ == payload(execution@),
{
    let mut s = copy_str("A ksforge execution paused because the coding agent needs a human decision.\n\nExecution: ");
    push_str(&mut s, execution.id.0.as_str());
    push_str(&mut s, "\nCapability: ");
    push_str(&mut s, execution.capability.as_str());
    push_str(&mut s, "\n");
    let ghost a = s@;
    let cv = crate::text::chars_of(execution.change_request.text.as_str());
    let ls = crate::text::split_lines(cv.as_slice());
    if ls.len() > 0 {
        push_str(&mut s, "Change request: ");
        let f = first_line_str(execution.change_request.text.as_str());
        push_str(&mut s, f.as_str());
        push_str(&mut s, "\n");
    }
    let ghost b = s@;
    proof {
        assert(ls@.map_values(|l: Vec<char>| l@).len() == ls@.len());
        if ls@.len() == 0 {
            assert(b =~= a + Seq::<char>::empty());
        }
    }
    match execution.open_gate() {
        None => {
            push_str(&mut s, "\nNo open gate was recorded on this execution.\n");
        },
        Some(gate) => {
            push_gate(&mut s, execution.id.0.as_str(), gate);
        },
    }
    proof {
        assert(s@ =~= payload(execution@));
    }
    s
}

/// `s` trimmed, and cut to `max` characters with an ellipsis.
pub open spec fn shortened(s: Seq<char>, max: nat) -> Seq<char> {
    let t = trim(s);
    if t.len() <= max {
        t
    } else {
        t.take(max as int) + "…"@
    }
}

pub fn truncate(s: &str, max: usize) -> (r: String)
    ensures
        r@ == shortened(s@, max as nat),
{
    let t = crate::text::chars_of(s);
    let (lo, hi) = crate::text::trim_bounds(t.as_slice());
    let v = crate::text::slice_range(t.as_slice(), lo, hi);
    if v.len() <= max {
        return crate::text::string_from_chars(v.as_slice());
    }
    let cut = crate::text::slice_range(v.as_slice(), 0, max);
    let mut r = crate::text::string_from_chars(cut.as_slice());
    push_str(&mut r, "…");
    proof {
        assert(cut@ =~= v@.take(max as int));
    }
    r
}

/// How a `/fire` reply is read: a JSON object's session URL (and id, or
/// empty); a body that is not JSON, or has no URL, is a configuration
/// error carrying the body itself, cut to 300 characters, since an API
/// error's message is the only diagnostic the caller gets.
pub open spec fn fire_reply(body: Seq<char>, r: Result<HandoffSession, KsforgeError>) -> bool {
    match json_parse(body) {
        Err(_) => r matches Err(KsforgeError::Config(m)) && m@ == "routine fire returned a non-JSON response: "@
            + shortened(body, 300),
        Ok(j) => match member_str(j, "claude_code_session_url"@) {
            None => r matches Err(KsforgeError::Config(m)) && m@ == "routine fire returned no session URL: "@
                + shortened(body, 300),
            Some(url) => r matches Ok(s) && s.session_url@ == url && s.session_id@ == (match member_str(
                j,
                "claude_code_session_id"@,
            ) {
                Some(id) => id,
                None => seq![],
            }),
        },
    }
}

pub fn parse_fire_response(body: &str) -> (r: Result<HandoffSession, KsforgeError>)
    ensures
        fire_reply(body@, r),
{
    let j = match parse_json(body) {
        Ok(j) => j,
        Err(_) => {
            let mut m = copy_str("routine fire returned a non-JSON response: ");
            let t = truncate(body, 300);
            push_str(&mut m, t.as_str());
            return Err(KsforgeError::Config(m));
        },
    };
    let url = match j.get_str("claude_code_session_url") {
        Some(u) => u,
        None => {
            let mut m = copy_str("routine fire returned no session URL: ");
            let t = truncate(body, 300);
            push_str(&mut m, t.as_str());
            return Err(KsforgeError::Config(m));
        },
    };
    let id = match j.get_str("claude_code_session_id") {
        Some(i) => i,
        None => String::new(),
    };
    Ok(HandoffSession { session_id: id, session_url: url })
}

/// A `curl` run that exited unsuccessfully: its exit status text and its
/// stderr, cut to 300 characters.
pub fn fire_failure(status: &str, stderr: &str) -> (r: KsforgeError)
    ensures
        r matches KsforgeError::Config(m) && m@ == "routine fire failed: curl exited "@ + status@ + ": "@
            + shortened(stderr@, 300),
{
    let mut m = copy_str("routine fire failed: curl exited ");
    push_str(&mut m, status);
    push_str(&mut m, ": ");
    let t = truncate(stderr, 300);
    push_str(&mut m, t.as_str());
    KsforgeError::Config(m)
}

} // verus!
