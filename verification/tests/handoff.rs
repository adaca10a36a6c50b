use ksforge::domain::change_request::ChangeRequest;
use ksforge::domain::error::KsforgeError;
use ksforge::domain::execution::{DecisionOption, Execution};
use ksforge::handoff::{parse_fire_response, payload_for, Config};

fn waiting_execution() -> Execution {
    let cr = ChangeRequest::from_text("As a user, I want to reset my password.")
        .ok()
        .unwrap();
    let mut exec = Execution::start(cr, "implement");
    exec.ask(
        "OAuth2 or JWT?".into(),
        vec![
            DecisionOption {
                id: "oauth2".into(),
                label: "OAuth 2".into(),
            },
            DecisionOption {
                id: "jwt".into(),
                label: "JWT".into(),
            },
        ],
        Some("oauth2".into()),
        "The repo already has an OAuth-compatible identity boundary.".into(),
        vec!["Analyzed the authentication module.".into()],
    );
    exec
}

#[test]
fn payload_is_self_contained() {
    let exec = waiting_execution();
    let payload = payload_for(&exec);
    assert!(payload.contains(&exec.id.0));
    assert!(payload.contains("OAuth2 or JWT?"));
    assert!(payload.contains("oauth2 — OAuth 2"));
    assert!(payload.contains("jwt — JWT"));
    assert!(payload.contains("Recommended option: oauth2"));
    assert!(payload.contains("Analyzed the authentication module."));
    assert!(payload.contains(&format!("ksforge resume {} --decision", exec.id.0)));
}

#[test]
fn payload_without_a_gate_invents_no_question() {
    let cr = ChangeRequest::from_text("As a user...").ok().unwrap();
    let exec = Execution::start(cr, "implement");
    let payload = payload_for(&exec);
    assert!(payload.contains("No open gate"));
    assert!(!payload.contains("Question:"));
}

#[test]
fn parses_a_successful_fire() {
    let session = parse_fire_response(
        r#"{"type":"routine_fire",
            "claude_code_session_id":"session_01H",
            "claude_code_session_url":"https://example.test/code/session_01H"}"#,
    )
    .ok()
    .unwrap();
    assert_eq!(session.session_id, "session_01H");
    assert_eq!(session.session_url, "https://example.test/code/session_01H");
}

#[test]
fn an_api_error_body_is_surfaced_verbatim() {
    let err = parse_fire_response(r#"{"type":"error","error":{"message":"not found"}}"#)
        .err()
        .unwrap();
    assert!(err.message().contains("not found"), "got: {}", err.message());
}

#[test]
fn a_non_json_body_is_not_a_panic() {
    let err = parse_fire_response("<html>502 Bad Gateway</html>").err().unwrap();
    assert!(err.message().contains("non-JSON"), "got: {}", err.message());
}

#[test]
fn a_non_https_url_is_rejected_before_any_request() {
    let err = Config::resolve("http://example.invalid/fire", Some("t".into()), None)
        .err()
        .unwrap();
    assert!(matches!(err, KsforgeError::Config(_)));
}

#[test]
fn a_missing_token_is_a_configuration_error() {
    let err = Config::resolve("https://example.invalid/fire", Some("  ".into()), None)
        .err()
        .unwrap();
    assert!(matches!(err, KsforgeError::Config(_)));
}

#[test]
fn a_blank_beta_falls_back_to_the_default() {
    let config = Config::resolve(" https://example.invalid/fire ", Some(" tok ".into()), Some(" ".into()))
        .ok()
        .unwrap();
    assert_eq!(config.routine_url(), "https://example.invalid/fire");
    assert_eq!(config.authorization_header(), "Authorization: Bearer tok\n");
}

#[test]
fn the_refused_url_is_quoted_in_the_message() {
    match Config::resolve("http://x/\"y\"", Some("t".into()), None) {
        Err(KsforgeError::Config(m)) => assert_eq!(
            m,
            "--handoff-session must be an https:// routine fire URL, got \"http://x/\\\"y\\\"\""
        ),
        _ => panic!("expected a configuration error"),
    }
}
