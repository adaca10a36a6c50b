use ksforge::application::coordinate::{active_executions, build_user_prompt};
use ksforge::cli::args::{CancelArgs, Engine, OutputFormat, StatusArgs};
use ksforge::cli::output::render_human;
use ksforge::cli::commands::{comment_next, CommentAction};
use ksforge::cli::commands::{
    capabilities_text, change_file, check_choice, choose_execution_id, choose_output, classify_comment,
    exit_code_for, follow_up_output, load_change_request, not_authorized_to_decide,
    posted_notice, publish_mode, pull_request_notice, pushed_notice, resolve_model,
    running_notice, CommentCommand, Publish,
};
use ksforge::domain::capability::CapabilityRegistry;
use ksforge::domain::change_request::ChangeRequest;
use ksforge::domain::error::KsforgeError;
use ksforge::domain::execution::{DecisionOption, Execution, ExecutionEvent, ExecutionResult, ValidationOutcome};
use ksforge::github::decision::FollowUpCommand;
use ksforge::github::pull_request::PullRequestOutcome;

fn started(text: &str, capability: &str) -> Execution {
    Execution::start(ChangeRequest::from_text(text).ok().unwrap(), capability)
}

#[test]
fn notes_no_active_executions_when_there_are_none() {
    let change_request = ChangeRequest::from_text("Add X.").ok().unwrap();
    let prompt = build_user_prompt(&change_request, &Vec::new(), "/workspace");
    assert!(prompt.contains("New change request:\nAdd X."));
    assert!(prompt.contains("Active executions: none."));
}

#[test]
fn lists_each_active_execution_with_its_own_change_request() {
    let change_request = ChangeRequest::from_text("Add X.").ok().unwrap();
    let a = started("Refactor the resolver.", "fix");
    let b = started("Add a remote cache.", "implement");
    let (a_id, b_id) = (a.id.0.clone(), b.id.0.clone());
    let prompt = build_user_prompt(&change_request, &vec![a, b], "/workspace");

    assert!(prompt.contains(&format!("- {} capability=fix status=running", a_id)));
    assert!(prompt.contains("change request: Refactor the resolver."));
    assert!(prompt.contains(&format!("- {} capability=implement status=running", b_id)));
    assert!(prompt.contains("change request: Add a remote cache."));
}

#[test]
fn only_running_and_waiting_executions_are_active() {
    let running = started("A.", "fix");
    let mut done = started("B.", "fix");
    done.fail("x");
    let mut cancelled = started("C.", "fix");
    cancelled.cancel("stop");
    let active = active_executions(vec![running, done, cancelled]);
    assert_eq!(active.len(), 1);
    assert_eq!(active[0].change_request.text, "A.");
}

#[test]
fn the_claude_engine_defaults_to_sonnet_and_codex_to_its_own_default() {
    assert_eq!(resolve_model(Engine::ClaudeCode, None), Some("sonnet".to_string()));
    assert_eq!(resolve_model(Engine::ClaudeCode, Some("opus".into())), Some("opus".to_string()));
    assert_eq!(resolve_model(Engine::Codex, None), None);
    assert_eq!(resolve_model(Engine::Codex, Some("o3".into())), Some("o3".to_string()));
}

fn result() -> ExecutionResult {
    ExecutionResult {
        success: true,
        title: None,
        summary: "done".into(),
        changed_files: vec![],
        validation: ValidationOutcome::default(),
        completed: vec![],
        open_items: vec![],
        recommendation: None,
    }
}

#[test]
fn exit_codes_follow_the_execution_status() {
    let mut e = started("A.", "implement");
    assert_eq!(exit_code_for(&e), 1);
    e.ask("Q?".into(), vec![], None, String::new(), vec![]);
    assert_eq!(exit_code_for(&e), 6);

    let mut c = started("A.", "implement");
    c.complete(result());
    assert_eq!(exit_code_for(&c), 0);

    let mut f = started("A.", "implement");
    f.fail("agent failed");
    assert_eq!(exit_code_for(&f), 3);

    let mut v = started("A.", "implement");
    v.record(ExecutionEvent::ValidationFailed {
        detail: "cargo test failed".into(),
        at: ksforge::domain::execution::now(),
    });
    v.fail("validation failed");
    assert_eq!(exit_code_for(&v), 4);

    let mut x = started("A.", "implement");
    x.cancel("stop");
    assert_eq!(exit_code_for(&x), 1);
}

#[test]
fn the_change_request_comes_from_text_or_a_file_and_is_required() {
    let from_text = load_change_request(Some("Add X.".into()), None).ok().unwrap();
    assert_eq!(from_text.text, "Add X.");
    assert_eq!(change_file("@cr.md"), Some("cr.md".to_string()));
    assert_eq!(change_file("Add X."), None);
    let from_file = load_change_request(Some("@cr.md".into()), Some(Ok("Fix Y.\n".into())))
        .ok()
        .unwrap();
    assert_eq!(from_file.text, "Fix Y.\n");
    match load_change_request(None, None) {
        Err(e) => {
            assert_eq!(e.exit_code(), 2);
            assert!(e.message().contains("--change"));
        }
        _ => panic!("expected a usage error"),
    }
    assert!(matches!(
        load_change_request(Some("  ".into()), None),
        Err(KsforgeError::Usage(_))
    ));
}

#[test]
fn implement_without_change_request_is_usage_error_exit_2() {
    let err = load_change_request(None, None).err().unwrap();
    assert_eq!(err.exit_code(), 2);
    assert!(err.message().contains("--change"));
}

#[test]
fn change_with_at_prefix_reads_from_a_file() {
    let err = load_change_request(
        Some("@does-not-exist.md".into()),
        Some(Err("No such file or directory (os error 2)".into())),
    )
    .err()
    .unwrap();
    assert_eq!(err.exit_code(), 2);
    assert!(err.message().contains("does-not-exist.md"));
}

#[test]
fn a_choose_comment_wins_over_a_follow_up() {
    match classify_comment("/ksforge choose oauth2").ok().unwrap() {
        CommentCommand::Choose(o) => assert_eq!(o, "oauth2"),
        _ => panic!("expected choose"),
    }
    match classify_comment("/ksforge fix the crash").ok().unwrap() {
        CommentCommand::FollowUp(f) => {
            assert_eq!(f.capability, "fix");
            assert_eq!(f.change_request, "the crash");
        }
        _ => panic!("expected a follow-up"),
    }
}

#[test]
fn handle_comment_without_choose_command_is_usage_error_exit_2() {
    let err = classify_comment("looks good").err().unwrap();
    assert_eq!(err.exit_code(), 2);
    assert_eq!(
        err.message(),
        "invalid usage: comment does not contain a recognized `/ksforge` command (`choose <option>`, `implement <change-request>`, or `fix <change-request>`)"
    );
}

#[test]
fn choose_needs_an_execution_id() {
    assert_eq!(choose_execution_id(Some("ksf_1".into())).ok().unwrap(), "ksf_1");
    match choose_execution_id(None) {
        Err(KsforgeError::Usage(m)) => assert_eq!(m, "`/ksforge choose` requires --execution-id"),
        _ => panic!("expected a usage error"),
    }
}

#[test]
fn an_unauthorized_commenter_is_a_policy_violation() {
    match not_authorized_to_decide("mallory", "ksf_1") {
        KsforgeError::PolicyViolation(m) => {
            assert_eq!(m, "mallory is not authorized to decide on ksf_1")
        }
        _ => panic!("expected a policy violation"),
    }
}

fn options() -> Vec<DecisionOption> {
    vec![
        DecisionOption { id: "oauth2".into(), label: "OAuth 2".into() },
        DecisionOption { id: "jwt".into(), label: "JWT".into() },
    ]
}

#[test]
fn a_choice_must_answer_a_waiting_execution_with_an_offered_option() {
    let running = started("A.", "implement");
    match check_choice("ksf_1", &running, "oauth2") {
        Err(KsforgeError::Usage(m)) => {
            assert_eq!(m, "ksf_1 is not waiting for human input (status: running)")
        }
        _ => panic!("expected a usage error"),
    }

    let mut waiting = started("A.", "implement");
    waiting.ask("Which?".into(), options(), None, String::new(), vec![]);
    assert!(check_choice("ksf_1", &waiting, "jwt").is_ok());
    match check_choice("ksf_1", &waiting, "saml") {
        Err(KsforgeError::Usage(m)) => {
            assert_eq!(m, "'saml' is not one of the offered options: oauth2, jwt")
        }
        _ => panic!("expected a usage error"),
    }

    let mut lost = started("A.", "implement");
    lost.ask("Which?".into(), options(), None, String::new(), vec![]);
    lost.pending_question = None;
    match check_choice("ksf_1", &lost, "jwt") {
        Err(KsforgeError::Workspace(m)) => assert_eq!(m, "ksf_1 has no open gate on record"),
        _ => panic!("expected a workspace error"),
    }
}

#[test]
fn step_outputs_carry_what_was_decided() {
    assert_eq!(
        choose_output("ksf_1", "oauth2"),
        "kind=choose\nexecution-id=ksf_1\ndecision=oauth2\n"
    );
    let f = FollowUpCommand {
        capability: "fix".into(),
        change_request: "line one\nline two".into(),
    };
    assert_eq!(
        follow_up_output(&f),
        "kind=follow_up\ncapability=fix\nchange_request<<KSFORGE_COMMENT_EOF\nline one\nline two\nKSFORGE_COMMENT_EOF\n"
    );
}

#[test]
fn capabilities_lists_all_six() {
    let text = capabilities_text(&CapabilityRegistry::with_defaults());
    let lines: Vec<&str> = text.lines().collect();
    assert_eq!(lines[0], "Capabilities:");
    assert_eq!(lines.len(), 7);
    assert!(lines[1].starts_with("  implement  "));
    assert!(lines.iter().any(|l| l.starts_with("  review     ")));
    assert!(lines.iter().any(|l| l.starts_with("  test       ")));
}

#[test]
fn notices_name_what_runs_and_what_was_published() {
    assert_eq!(running_notice("implement", true), "Running implement (dry run)...");
    assert_eq!(running_notice("fix", false), "Running fix...");
    assert_eq!(posted_notice("ksf_1", 42), "Posted report for ksf_1 to PR #42");
    assert_eq!(publish_mode(true, true), Publish::PushToBranch);
    assert_eq!(publish_mode(false, true), Publish::PullRequest);
    assert_eq!(publish_mode(false, false), Publish::Nothing);
    assert_eq!(pushed_notice(Some("[fix] X".into())), "Pushed: [fix] X");
    assert_eq!(
        pushed_notice(None),
        "--push-to-branch set, but there is nothing to push yet."
    );
    let pr = PullRequestOutcome {
        repo: "/w".into(),
        branch: "ksforge/abc".into(),
        url: None,
    };
    assert_eq!(pull_request_notice(Some(&pr)), "Pull request: ksforge/abc");
    assert_eq!(
        pull_request_notice(None),
        "--create-pull-request set, but there is nothing to open a PR for yet."
    );
}

#[test]
fn status_shows_the_transcript_and_exits_with_the_status_code() {
    let mut e = started("A.", "implement");
    e.ask("Q?".into(), options(), None, String::new(), vec![]);
    let text_args = StatusArgs {
        execution_id: e.id.0.clone(),
        workspace: ".".into(),
        format: OutputFormat::Text,
    };
    let (text, code) = ksforge::cli::commands::status(&text_args, &e);
    assert_eq!(code, 6);
    assert_eq!(text, Some(render_human(&e)));
    assert!(text.unwrap().contains("Q?"));
    let json_args = StatusArgs {
        execution_id: e.id.0.clone(),
        workspace: ".".into(),
        format: OutputFormat::Json,
    };
    assert_eq!(ksforge::cli::commands::status(&json_args, &e).0, None);
}

#[test]
fn cancel_records_the_reason_and_exits_1() {
    let mut e = started("A.", "implement");
    e.ask("Q?".into(), options(), None, String::new(), vec![]);
    let args = CancelArgs {
        execution_id: e.id.0.clone(),
        reason: "cancelled by operator".into(),
        workspace: ".".into(),
        format: OutputFormat::Text,
    };
    let (text, code) = ksforge::cli::commands::cancel(&args, &mut e);
    assert_eq!(code, 1);
    assert!(text.unwrap().contains("cancelled"));
    assert_eq!(e.result.as_ref().unwrap().summary, "cancelled by operator");
    assert!(e.pending_question.is_none());
}

#[test]
fn a_comment_is_checked_for_duplicates_before_authorization() {
    let choose = classify_comment("/ksforge choose oauth2").ok().unwrap();
    let id = Some("ksf_1".to_string());
    match comment_next(&choose, &None, "alice", None, None, &None) {
        CommentAction::Refuse(KsforgeError::Usage(m)) => assert_eq!(m, "`/ksforge choose` requires --execution-id"),
        _ => panic!("expected a usage error"),
    }
    match comment_next(&choose, &id, "alice", None, None, &None) {
        CommentAction::CheckProcessed(s) => assert_eq!(s, "ksf_1"),
        _ => panic!("expected the duplicate check first"),
    }
    assert!(matches!(comment_next(&choose, &id, "alice", Some(true), None, &None), CommentAction::AlreadyProcessed));
    assert!(matches!(comment_next(&choose, &id, "alice", Some(false), None, &None), CommentAction::Authorize));
    match comment_next(&choose, &id, "alice", Some(false), Some(false), &None) {
        CommentAction::Refuse(KsforgeError::PolicyViolation(m)) => assert_eq!(m, "alice is not authorized to decide on ksf_1"),
        _ => panic!("expected a refusal"),
    }
    match comment_next(&choose, &id, "alice", Some(false), Some(true), &None) {
        CommentAction::LoadExecution(s) => assert_eq!(s, "ksf_1"),
        _ => panic!("expected the execution to be loaded"),
    }
    let follow_up = classify_comment("/ksforge fix the button").ok().unwrap();
    match comment_next(&follow_up, &None, "bob", None, None, &None) {
        CommentAction::CheckProcessed(s) => assert_eq!(s, "ksf_pr_followups"),
        _ => panic!("expected the duplicate check first"),
    }
    match comment_next(&follow_up, &None, "bob", Some(false), Some(true), &None) {
        CommentAction::Answer { scope, answer, github_output } => {
            assert_eq!(scope, "ksf_pr_followups");
            assert_eq!(answer, "fix");
            assert_eq!(github_output, "kind=follow_up\ncapability=fix\nchange_request<<KSFORGE_COMMENT_EOF\nthe button\nKSFORGE_COMMENT_EOF\n");
        }
        _ => panic!("expected an answer"),
    }
}

#[test]
fn a_repeated_comment_does_nothing_whoever_sends_it() {
    let choose = classify_comment("/ksforge choose oauth2").ok().unwrap();
    let id = Some("ksf_1".to_string());
    for authorized in [None, Some(false), Some(true)] {
        assert!(matches!(
            comment_next(&choose, &id, "alice", Some(true), authorized, &None),
            CommentAction::AlreadyProcessed
        ));
    }
}
