use ksforge::domain::execution::{timestamp_from_offset, Timestamp};
use ksforge::domain::change_request::ChangeRequest;
use ksforge::domain::execution::{
    DecisionOption, Execution, ExecutionEvent, ExecutionStatus, HumanDecision, ValidationOutcome,
};
use ksforge::domain::test_scope::{has_inline_test_marker, is_test_path, violations};
use ksforge::domain::workflow::{
    ActionKind, ActionResult, LocatedContext, Phase, Understanding, WorkflowState,
};

#[test]
fn rejects_empty_change_request() {
    assert!(ChangeRequest::from_text("   ").is_err());
}

#[test]
fn accepts_nonempty_change_request() {
    let s = ChangeRequest::from_text("As a user, I want...").ok().unwrap();
    assert_eq!(s.text, "As a user, I want...");
}

#[test]
fn an_unreadable_change_request_file_is_a_usage_error_naming_it() {
    let r = ChangeRequest::from_file("cr.md", Err("No such file or directory".to_string()));
    match r {
        Err(e) => assert_eq!(
            e.message(),
            "invalid usage: failed to read change request file cr.md: No such file or directory"
        ),
        Ok(_) => panic!("expected an error"),
    }
}

#[test]
fn recognizes_dedicated_test_paths() {
    assert!(is_test_path("tests/foo.rs"));
    assert!(is_test_path("src/foo_test.go"));
    assert!(is_test_path("src/foo.test.js"));
    assert!(is_test_path("src/foo.spec.ts"));
    assert!(is_test_path("test_foo.py"));
    assert!(is_test_path("foo_spec.rb"));
    assert!(is_test_path("FooTest.java"));
    assert!(is_test_path("__tests__/foo.js"));
}

#[test]
fn rejects_ordinary_source_paths() {
    assert!(!is_test_path("src/main.rs"));
    assert!(!is_test_path("src/lib.py"));
    assert!(!is_test_path("src/app.js"));
}

#[test]
fn inline_marker_allows_colocated_rust_tests() {
    assert!(has_inline_test_marker(
        "src/lib.rs",
        "fn foo() {}\n\n#[cfg(test)]\nmod tests {}\n"
    ));
    assert!(!has_inline_test_marker("src/lib.rs", "fn foo() {}\n"));
}

#[test]
fn violations_flags_a_plain_source_file_with_no_test_marker() {
    let changed = vec!["main.rs".to_string()];
    let contents = vec!["fn main() {}\n".to_string()];
    assert_eq!(violations(&changed, &contents), changed);
}

#[test]
fn violations_allows_a_dedicated_test_path() {
    let changed = vec!["tests/it.rs".to_string()];
    let contents = vec!["#[test]\nfn it_works() {}\n".to_string()];
    assert!(violations(&changed, &contents).is_empty());
}

#[test]
fn violations_allows_a_colocated_rust_test_addition() {
    let changed = vec!["lib.rs".to_string()];
    let contents = vec!["pub fn add(a: i32, b: i32) -> i32 { a + b }\n\n#[cfg(test)]\nmod tests {\n    \
         use super::*;\n    #[test]\n    fn adds() { assert_eq!(add(1, 1), 2); }\n}\n"
        .to_string()];
    assert!(violations(&changed, &contents).is_empty());
}

#[test]
fn violations_flags_a_non_test_path_that_no_longer_exists() {
    let changed = vec!["gone.rs".to_string()];
    let contents = vec![String::new()];
    assert_eq!(violations(&changed, &contents), changed);
}

fn understanding() -> Understanding {
    Understanding {
        summary: "add a login page".into(),
        scope: vec!["src/auth".into()],
    }
}

fn located() -> LocatedContext {
    LocatedContext {
        relevant_files: vec!["src/auth/mod.rs".into()],
        existing_abstractions: vec![],
        existing_tests: vec![],
        conventions: vec![],
    }
}

fn action() -> ActionResult {
    ActionResult {
        kind: ActionKind::Modify,
        title: Some("Add login page".into()),
        summary: "Added it.".into(),
        changed_files: vec!["src/auth/mod.rs".into()],
        completed: vec![],
        open_items: vec![],
        recommendation: None,
    }
}

#[test]
fn happy_path_advances_one_phase_at_a_time() {
    let state = WorkflowState::start();
    assert_eq!(state.phase(), Phase::Understand);

    let state = state.complete_understand(understanding()).ok().unwrap();
    assert_eq!(state.phase(), Phase::Locate);

    let state = state.complete_locate(located()).ok().unwrap();
    assert_eq!(state.phase(), Phase::Act);

    let state = state.complete_act(action()).ok().unwrap();
    assert_eq!(state.phase(), Phase::Validate);

    let state = state
        .complete_validate(ValidationOutcome::default())
        .ok()
        .unwrap();
    assert_eq!(state.phase(), Phase::Report);
}

#[test]
fn cannot_skip_locate_to_reach_act() {
    let state = WorkflowState::start();
    let err = state.complete_act(action()).err().unwrap();
    assert_eq!(err.from, Phase::Understand);
    assert_eq!(err.attempted, Phase::Validate);
}

#[test]
fn cannot_skip_act_to_reach_report() {
    let state = WorkflowState::start()
        .complete_understand(understanding())
        .ok()
        .unwrap();
    let err = state
        .complete_validate(ValidationOutcome::default())
        .err()
        .unwrap();
    assert_eq!(err.from, Phase::Locate);
    assert_eq!(err.attempted, Phase::Report);
}

#[test]
fn cannot_redo_a_completed_phase() {
    let state = WorkflowState::start()
        .complete_understand(understanding())
        .ok()
        .unwrap()
        .complete_locate(located())
        .ok()
        .unwrap();
    let err = state.complete_understand(understanding()).err().unwrap();
    assert_eq!(err.from, Phase::Act);
    assert_eq!(err.attempted, Phase::Locate);
}

#[test]
fn action_kind_is_derived_not_reported() {
    assert_eq!(ActionKind::derive("review", true), ActionKind::Findings);
    assert_eq!(ActionKind::derive("explain", false), ActionKind::Explain);
    assert_eq!(ActionKind::derive("implement", true), ActionKind::NoChange);
    assert_eq!(ActionKind::derive("implement", false), ActionKind::Modify);
    assert_eq!(ActionKind::derive("fix", false), ActionKind::Modify);
}

fn options(ids: &[&str]) -> Vec<DecisionOption> {
    ids.iter()
        .map(|id| DecisionOption {
            id: id.to_string(),
            label: format!("Use {id}"),
        })
        .collect()
}

fn started() -> Execution {
    Execution::start(
        ChangeRequest::from_text("As a user, I want to log in.").ok().unwrap(),
        "implement",
    )
}

#[test]
fn waiting_for_human_round_trips_pending_question() {
    let mut execution = started();
    let gate = execution.ask(
        "Which auth flow?".into(),
        options(&["oauth2", "magic-link"]),
        Some("oauth2".into()),
        "context".into(),
        vec![],
    );
    assert_eq!(execution.status, ExecutionStatus::WaitingForHuman);
    let pending = execution.open_gate().unwrap();
    assert_eq!(pending.id, gate.id);
    assert_eq!(pending.question, "Which auth flow?");
    assert_eq!(pending.options.len(), 2);
    assert_eq!(pending.recommended_option.as_deref(), Some("oauth2"));
    assert!(gate.id.0.starts_with("gate_"));

    execution.apply_decision(&HumanDecision {
        execution_id: execution.id.clone(),
        option: "oauth2".into(),
        decided_by: Some("alice".into()),
    });
    assert_eq!(execution.status, ExecutionStatus::Running);
    assert!(execution.open_gate().is_none());
    assert_eq!(execution.gates.len(), 1);
    let n = execution.messages.len();
    assert!(matches!(
        &execution.messages[n - 2],
        ExecutionEvent::HumanDecided { option, .. } if option == "oauth2"
    ));
    assert!(matches!(execution.messages[n - 1], ExecutionEvent::AgentResumed { .. }));
}

#[test]
fn multiple_sequential_gates_are_kept_in_history() {
    let mut execution = started();
    let first = execution.ask("First?".into(), options(&["a", "b"]), None, String::new(), vec![]);
    execution.apply_decision(&HumanDecision {
        execution_id: execution.id.clone(),
        option: "a".into(),
        decided_by: None,
    });
    let second = execution.ask("Second?".into(), options(&["c", "d"]), None, String::new(), vec![]);
    assert_eq!(execution.gates.len(), 2);
    assert_eq!(execution.gates[0].question, "First?");
    assert_eq!(execution.gates[1].question, "Second?");
    assert_eq!(execution.open_gate().unwrap().id, second.id);
    assert_ne!(first.id, second.id);
}

#[test]
fn cancel_stops_a_waiting_execution() {
    let mut execution = started();
    execution.ask("Which?".into(), options(&["a"]), None, String::new(), vec![]);
    execution.cancel("cancelled by operator");
    assert_eq!(execution.status, ExecutionStatus::Cancelled);
    assert!(execution.open_gate().is_none());
    let result = execution.result.as_ref().unwrap();
    assert!(!result.success);
    assert_eq!(result.summary, "cancelled by operator");
    assert!(matches!(execution.messages.last(), Some(ExecutionEvent::Cancelled { .. })));
}

#[test]
fn failing_keeps_the_artifacts_as_the_changed_files() {
    let mut execution = started();
    execution.artifacts = vec!["src/a.rs".into()];
    execution.fail("validation failed");
    assert_eq!(execution.status, ExecutionStatus::Failed);
    let result = execution.result.as_ref().unwrap();
    assert_eq!(result.summary, "validation failed");
    assert_eq!(result.changed_files, vec!["src/a.rs".to_string()]);
}

#[test]
fn a_new_execution_starts_at_understand_with_its_started_event() {
    let execution = started();
    assert!(execution.id.0.starts_with("ksf_"));
    assert_eq!(execution.status, ExecutionStatus::Running);
    assert_eq!(execution.current_step, "started");
    assert_eq!(execution.workflow.phase(), Phase::Understand);
    assert_eq!(execution.messages.len(), 1);
    assert!(matches!(&execution.messages[0], ExecutionEvent::Started { capability, .. } if capability == "implement"));
}

#[test]
fn instants_before_the_epoch_are_kept_exactly() {
    assert_eq!(timestamp_from_offset(true, 7, 3), Timestamp { secs: 7, nanos: 3 });
    assert_eq!(timestamp_from_offset(false, 5, 0), Timestamp { secs: -5, nanos: 0 });
    assert_eq!(timestamp_from_offset(false, 1, 500_000_000), Timestamp { secs: -2, nanos: 500_000_000 });
    assert!(ksforge::domain::execution::now().nanos < 1_000_000_000);
}
