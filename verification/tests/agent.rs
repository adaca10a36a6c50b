use ksforge::agent::claude_code;
use ksforge::agent::codex;
use ksforge::agent::executor::{AgentError, PermissionMode};

#[test]
fn extracts_result_from_a_json_envelope_on_stdout() {
    let stdout = r#"{"type":"result","is_error":true,"result":"Credit balance is too low","session_id":"abc"}"#;
    assert_eq!(claude_code::error_detail(stdout, ""), "Credit balance is too low");
}

#[test]
fn falls_back_to_raw_text_when_not_a_json_envelope() {
    assert_eq!(
        claude_code::error_detail("", "command not found: agent"),
        "command not found: agent"
    );
}

#[test]
fn falls_back_to_raw_json_when_envelope_has_no_result_field() {
    let stdout = r#"{"type":"result","is_error":true,"session_id":"abc"}"#;
    assert_eq!(claude_code::error_detail(stdout, ""), stdout);
}

#[test]
fn accept_edits_also_pre_approves_bash() {
    let args = claude_code::permission_args(PermissionMode::AcceptEdits);
    assert_eq!(
        args,
        vec![
            "--permission-mode",
            "acceptEdits",
            "--permission-prompts",
            "none",
            "--allowedTools",
            "Bash",
        ]
    );
}

#[test]
fn read_only_does_not_get_bash_pre_approved() {
    let args = claude_code::permission_args(PermissionMode::ReadOnly);
    assert_eq!(
        args,
        vec!["--permission-mode", "plan", "--permission-prompts", "none"]
    );
}

#[test]
fn execute_only_pre_approves_the_shells_but_never_edits() {
    let args = claude_code::permission_args(PermissionMode::ExecuteOnly);
    assert_eq!(
        args,
        vec![
            "--permission-mode",
            "default",
            "--permission-prompts",
            "none",
            "--allowedTools",
            "Bash,PowerShell",
        ]
    );
}

#[test]
fn extracts_thread_id_from_the_started_event_among_other_lines() {
    let stdout = "{\"type\":\"item.completed\",\"item\":{\"id\":\"item_0\"}}\n\
         {\"type\":\"thread.started\",\"thread_id\":\"019ce6ce-65fd-7530-8e6b-9ccce0436091\"}\n\
         {\"type\":\"turn.completed\",\"usage\":{\"input_tokens\":1}}\n";
    assert_eq!(
        codex::extract_thread_id(stdout),
        Some("019ce6ce-65fd-7530-8e6b-9ccce0436091".to_string())
    );
}

#[test]
fn no_thread_id_when_the_stream_has_no_started_event() {
    assert_eq!(codex::extract_thread_id("{\"type\":\"turn.completed\"}\n"), None);
}

#[test]
fn error_detail_prefers_stderr_over_stdout() {
    assert_eq!(codex::error_detail("stdout text", "stderr text"), "stderr text");
}

#[test]
fn error_detail_falls_back_to_stdout_when_stderr_is_empty() {
    assert_eq!(codex::error_detail("stdout text", ""), "stdout text");
}

#[test]
fn codex_error_detail_is_cut_to_two_thousand_bytes() {
    let long = "x".repeat(2500);
    let detail = codex::error_detail("", &long);
    assert_eq!(detail, format!("{}... [truncated]", "x".repeat(2000)));
}

#[test]
fn io_errors_are_transient() {
    let err = AgentError::Io(std::io::Error::other("boom"));
    assert!(err.is_transient());
}

#[test]
fn non_zero_exit_with_a_rate_limit_message_is_transient() {
    let err = AgentError::NonZeroExit("Error: rate_limit_error, please retry".into());
    assert!(err.is_transient());
}

#[test]
fn non_zero_exit_with_a_billing_message_is_not_transient() {
    let err = AgentError::NonZeroExit("Credit balance is too low".into());
    assert!(!err.is_transient());
}

#[test]
fn not_found_is_never_transient() {
    assert!(!AgentError::NotFound("agent (not on PATH)".into()).is_transient());
}

#[test]
fn malformed_output_is_never_transient() {
    assert!(!AgentError::MalformedOutput("no result event".into()).is_transient());
}

#[test]
fn unsupported_is_never_transient() {
    assert!(!AgentError::Unsupported("mcp_config".into()).is_transient());
}

fn codex_request(mcp_config: Option<String>, max_budget_usd: Option<String>) -> ksforge::agent::executor::AgentRequest {
    ksforge::agent::executor::AgentRequest {
        prompt: "Do it.".into(),
        system_prompt: None,
        working_directory: "/w".into(),
        tools: vec![],
        model: None,
        permission_mode: PermissionMode::ReadOnly,
        json_schema: None,
        max_budget_usd,
        resume_session_id: None,
        mcp_config,
    }
}

#[test]
fn codex_refuses_an_mcp_config_before_a_spend_cap() {
    match codex::codex_refusal(&codex_request(Some("m.json".into()), Some("1.5".into()))) {
        Some(AgentError::Unsupported(d)) => assert!(d.starts_with("mcp_config:")),
        _ => panic!("expected a refusal"),
    }
    match codex::codex_refusal(&codex_request(None, Some("1.5".into()))) {
        Some(AgentError::Unsupported(d)) => assert!(d.starts_with("max_budget_usd:")),
        _ => panic!("expected a refusal"),
    }
    assert!(codex::codex_refusal(&codex_request(None, None)).is_none());
}
