use std::collections::VecDeque;

use ksforge::agent::executor::{AgentError, PermissionMode};
use ksforge::agent::outcome::{AgentOutcome, OutcomeStatus};
use ksforge::application::execute::{AgentReply, LoopEvent, LoopSettings, LoopWait, PhaseLoop};
use ksforge::application::prompt::PromptTexts;
use ksforge::application::resume::prepare_resume;
use ksforge::domain::capability::{CapabilityKind, CapabilityRegistry};
use ksforge::domain::change_request::ChangeRequest;
use ksforge::domain::error::KsforgeError;
use ksforge::domain::execution::{DecisionOption, Execution, ExecutionEvent, ExecutionStatus};
use ksforge::domain::request::{ImplementationRequest, ValidationPolicy};
use ksforge::domain::workflow::Phase;
use ksforge::workspace::snapshot::Snapshot;

fn texts() -> PromptTexts {
    let t = |s: &str| s.to_string();
    PromptTexts {
        core: t("core"),
        understand: t("understand"),
        locate: t("locate"),
        act: t("act"),
        validate: t("validate"),
        human_in_the_loop: t("human"),
        schema_reminder: t("schema"),
        implement: t("implement"),
        review: t("review"),
        fix: t("fix"),
        txt2img: t("txt2img"),
        img2img: t("img2img"),
        test: t("test"),
    }
}

fn request(commands: Vec<String>, agent_review: bool) -> ImplementationRequest {
    ImplementationRequest {
        change_request: ChangeRequest::from_text("As a user, I want to log in.").ok().unwrap(),
        workspace: "/w".to_string(),
        capability: "implement".to_string(),
        constraints: Vec::new(),
        validation: ValidationPolicy {
            commands,
            agent_review,
        },
    }
}

fn outcome(status: OutcomeStatus, summary: &str) -> AgentOutcome {
    AgentOutcome {
        status,
        title: None,
        summary: summary.to_string(),
        changed_files: Vec::new(),
        scope: Vec::new(),
        relevant_files: Vec::new(),
        existing_abstractions: Vec::new(),
        existing_tests: Vec::new(),
        conventions: Vec::new(),
        question: None,
        options: Vec::new(),
        failure_reason: None,
        completed: Vec::new(),
        open_items: Vec::new(),
        recommendation: None,
        recommended_option: None,
    }
}

fn ok(summary: &str) -> Reply {
    Reply::Outcome(outcome(OutcomeStatus::Completed, summary))
}

enum Reply {
    Outcome(AgentOutcome),
    Malformed(String),
    Failure(AgentError),
}

struct Run {
    result: Result<(), KsforgeError>,
    modes: Vec<PermissionMode>,
    tools: Vec<Vec<String>>,
    commands: Vec<String>,
    sleeps: usize,
    prompts: Vec<String>,
    /// The status and phase of the last copy the loop asked to persist.
    saved: Option<(ExecutionStatus, Phase)>,
}

fn snapshot(files: &[(&str, &str)]) -> Snapshot {
    Snapshot::from_entries(
        files
            .iter()
            .map(|(p, d)| (p.to_string(), d.to_string()))
            .collect(),
    )
    .unwrap()
}

/// Runs the loop to its end, answering each wait: agent calls from
/// `replies` in order, snapshots from `snapshots` in order (the last one
/// repeated), every command with `command_passes`.
fn drive(
    l: &mut PhaseLoop,
    execution: &mut Execution,
    replies: Vec<Reply>,
    snapshots: Vec<Snapshot>,
    command_passes: bool,
    contents: &[(&str, &str)],
) -> Run {
    let mut replies: VecDeque<Reply> = replies.into();
    let mut snapshots: VecDeque<Snapshot> = snapshots.into();
    let mut run = Run {
        result: Ok(()),
        modes: Vec::new(),
        tools: Vec::new(),
        commands: Vec::new(),
        sleeps: 0,
        prompts: Vec::new(),
        saved: None,
    };
    let mut event = LoopEvent::Begin;
    loop {
        let step = l.step(execution, event);
        if step.save {
            run.saved = Some((execution.status, execution.workflow.phase()));
        }
        event = match step.wait {
            LoopWait::Snapshot => {
                let s = if snapshots.len() > 1 {
                    snapshots.pop_front().unwrap()
                } else {
                    let only = snapshots.front().unwrap();
                    Snapshot::from_entries(only.entries().clone()).unwrap()
                };
                LoopEvent::Snapshot(s)
            }
            LoopWait::CallAgent(r) => {
                run.modes.push(r.permission_mode);
                run.tools.push(r.tools.clone());
                run.prompts.push(r.prompt.clone());
                match replies.pop_front().expect("an agent reply was scripted") {
                    Reply::Outcome(o) => LoopEvent::AgentReplied(AgentReply {
                        session_id: Some("session-1".to_string()),
                        outcome: Ok(o),
                    }),
                    Reply::Malformed(t) => LoopEvent::AgentReplied(AgentReply {
                        session_id: None,
                        outcome: Err(t),
                    }),
                    Reply::Failure(e) => LoopEvent::AgentFailed(e),
                }
            }
            LoopWait::Sleep(_) => {
                run.sleeps += 1;
                LoopEvent::Slept
            }
            LoopWait::ReadFiles(v) => LoopEvent::FilesRead(
                v.iter()
                    .map(|p| {
                        contents
                            .iter()
                            .find(|(q, _)| q == p)
                            .map(|(_, c)| c.to_string())
                            .unwrap_or_default()
                    })
                    .collect(),
            ),
            LoopWait::RunCommand(c) => {
                run.commands.push(c);
                LoopEvent::CommandRan {
                    success: command_passes,
                    output: "done".to_string(),
                }
            }
            LoopWait::Finished(r) => {
                run.result = r;
                return run;
            }
        };
    }
}

fn new_loop(req: ImplementationRequest) -> (PhaseLoop, Execution) {
    new_loop_for(CapabilityKind::Implement, req)
}

fn new_loop_for(kind: CapabilityKind, req: ImplementationRequest) -> (PhaseLoop, Execution) {
    let execution = Execution::start(req.change_request.clone(), kind.id());
    let settings = LoopSettings {
        model: None,
        max_budget_usd: None,
        mcp_config: None,
        color: false,
    };
    let l = PhaseLoop::new(
        kind,
        req,
        texts(),
        settings,
        "/w".to_string(),
        None,
        None,
    );
    (l, execution)
}

#[test]
fn completed_run_persists_and_reports_success() {
    let (mut l, mut execution) = new_loop(request(Vec::new(), false));
    let run = drive(
        &mut l,
        &mut execution,
        vec![ok("Wants a login page."), ok("Found the auth module."), ok("Added login.")],
        vec![snapshot(&[])],
        true,
        &[],
    );
    assert!(run.result.is_ok());
    assert_eq!(execution.status, ExecutionStatus::Completed);
    assert_eq!(execution.result.as_ref().unwrap().summary, "Added login.");
    assert_eq!(execution.workflow.phase(), Phase::Report);
    assert_eq!(run.saved, Some((ExecutionStatus::Completed, Phase::Report)));
}

#[test]
fn act_records_the_filesystem_diff_and_the_title() {
    let (mut l, mut execution) = new_loop(request(Vec::new(), false));
    let mut act = outcome(OutcomeStatus::Completed, "Added login.");
    act.title = Some("Add login".to_string());
    let run = drive(
        &mut l,
        &mut execution,
        vec![ok("Wants a login page."), ok("Found the auth module."), Reply::Outcome(act)],
        vec![
            snapshot(&[("a.rs", "1")]),
            snapshot(&[("a.rs", "2"), ("login.rs", "3")]),
        ],
        true,
        &[],
    );
    assert!(run.result.is_ok());
    let result = execution.result.as_ref().unwrap();
    assert_eq!(result.title.as_deref(), Some("Add login"));
    assert_eq!(
        result.changed_files,
        vec!["a.rs".to_string(), "login.rs".to_string()]
    );
    assert_eq!(execution.agent_session_id.as_deref(), Some("session-1"));
}

#[test]
fn understand_and_locate_are_always_read_only_even_for_a_write_capability() {
    let (mut l, mut execution) = new_loop(request(Vec::new(), false));
    let run = drive(
        &mut l,
        &mut execution,
        vec![ok("u"), ok("l"), ok("No changes needed.")],
        vec![snapshot(&[("a.rs", "1")])],
        true,
        &[],
    );
    assert_eq!(execution.status, ExecutionStatus::Completed);
    assert_eq!(run.modes.len(), 3);
    let read_only = vec!["Read".to_string(), "Grep".to_string(), "Glob".to_string()];
    assert_eq!(run.modes[0], PermissionMode::ReadOnly);
    assert_eq!(run.tools[0], read_only);
    assert_eq!(run.modes[1], PermissionMode::ReadOnly);
    assert_eq!(run.tools[1], read_only);
    assert_eq!(run.modes[2], PermissionMode::AcceptEdits);
    assert!(run.tools[2].is_empty());
}

#[test]
fn waiting_for_human_pauses_without_blocking_then_resumes() {
    let (mut l, mut execution) = new_loop(request(Vec::new(), false));
    let mut ask = outcome(OutcomeStatus::WaitingForHuman, "Need a decision.");
    ask.question = Some("OAuth2 or JWT?".to_string());
    ask.options = vec![
        DecisionOption { id: "oauth2".into(), label: "OAuth 2".into() },
        DecisionOption { id: "jwt".into(), label: "JWT".into() },
    ];
    ask.completed = vec!["Analyzed the authentication module.".to_string()];
    ask.recommended_option = Some("oauth2".to_string());
    let run = drive(
        &mut l,
        &mut execution,
        vec![ok("u"), ok("l"), Reply::Outcome(ask)],
        vec![snapshot(&[("a.rs", "1")])],
        true,
        &[],
    );
    assert!(run.result.is_ok());
    assert_eq!(execution.status, ExecutionStatus::WaitingForHuman);
    let question = execution.pending_question.as_ref().unwrap();
    assert_eq!(question.options.len(), 2);
    assert_eq!(question.recommended_option.as_deref(), Some("oauth2"));
    assert_eq!(question.completed, vec!["Analyzed the authentication module.".to_string()]);
    assert_eq!(execution.gates.len(), 1);
    assert_eq!(execution.workflow.phase(), Phase::Act);

    let registry = CapabilityRegistry::with_defaults();
    let resumption = prepare_resume(&mut execution, "oauth2", Some("chevp".to_string()), &registry)
        .ok()
        .unwrap();
    assert_eq!(resumption.capability, CapabilityKind::Implement);
    assert_eq!(resumption.session_id.as_deref(), Some("session-1"));
    assert!(resumption.decision_suffix.contains("oauth2"));
    let suffix = resumption.decision_suffix.clone();

    let settings = LoopSettings { model: None, max_budget_usd: None, mcp_config: None, color: false };
    let mut resumed = PhaseLoop::new(
        resumption.capability,
        request(Vec::new(), false),
        texts(),
        settings,
        "/w".to_string(),
        resumption.session_id,
        Some(resumption.decision_suffix),
    );
    let run = drive(
        &mut resumed,
        &mut execution,
        vec![ok("Implemented using OAuth2.")],
        vec![snapshot(&[("a.rs", "1")])],
        true,
        &[],
    );
    assert!(run.result.is_ok());
    assert_eq!(run.modes, vec![PermissionMode::AcceptEdits]);
    assert!(run.prompts[0].ends_with(&suffix));
    assert_eq!(execution.status, ExecutionStatus::Completed);
    assert!(execution.pending_question.is_none());
    assert!(execution.messages.iter().any(|e| matches!(
        e,
        ExecutionEvent::HumanDecided { option, decided_by, .. }
            if option == "oauth2" && decided_by.as_deref() == Some("chevp")
    )));
}

#[test]
fn resuming_with_an_unoffered_option_is_a_usage_error() {
    let (mut l, mut execution) = new_loop(request(Vec::new(), false));
    let mut ask = outcome(OutcomeStatus::WaitingForHuman, "Need a decision.");
    ask.question = Some("OAuth2 or JWT?".to_string());
    ask.options = vec![DecisionOption { id: "oauth2".into(), label: "OAuth 2".into() }];
    drive(
        &mut l,
        &mut execution,
        vec![ok("u"), ok("l"), Reply::Outcome(ask)],
        vec![snapshot(&[("a.rs", "1")])],
        true,
        &[],
    );
    let registry = CapabilityRegistry::with_defaults();
    let err = prepare_resume(&mut execution, "saml", None, &registry).err().unwrap();
    assert!(matches!(err, KsforgeError::Usage(_)));
    assert_eq!(execution.status, ExecutionStatus::WaitingForHuman);
}

#[test]
fn a_malformed_phase_response_fails_the_execution_without_retrying() {
    let (mut l, mut execution) = new_loop(request(Vec::new(), false));
    let run = drive(
        &mut l,
        &mut execution,
        vec![Reply::Malformed("missing field `summary`".to_string())],
        vec![snapshot(&[])],
        true,
        &[],
    );
    assert!(run.result.is_err());
    assert_eq!(run.modes.len(), 1);
}

#[test]
fn a_transient_executor_error_is_retried_within_the_same_phase() {
    let (mut l, mut execution) = new_loop(request(Vec::new(), false));
    let run = drive(
        &mut l,
        &mut execution,
        vec![
            Reply::Failure(AgentError::NonZeroExit("529 Overloaded: please retry".into())),
            ok("u"),
            ok("l"),
            ok("Added login."),
        ],
        vec![snapshot(&[("a.rs", "1")])],
        true,
        &[],
    );
    assert!(run.result.is_ok());
    assert_eq!(execution.status, ExecutionStatus::Completed);
    assert_eq!(run.modes.len(), 4);
    assert_eq!(run.sleeps, 1);
}

#[test]
fn a_non_transient_executor_error_fails_without_retrying() {
    let (mut l, mut execution) = new_loop(request(Vec::new(), false));
    let run = drive(
        &mut l,
        &mut execution,
        vec![Reply::Failure(AgentError::NotFound("agent (not on PATH)".into()))],
        vec![snapshot(&[])],
        true,
        &[],
    );
    assert!(matches!(run.result, Err(KsforgeError::ExecutorFailed(_))));
    assert_eq!(run.modes.len(), 1);
    assert_eq!(run.sleeps, 0);
}

#[test]
fn a_failing_validate_command_fails_the_execution_after_act() {
    let (mut l, mut execution) = new_loop(request(vec!["exit 1".to_string()], false));
    let run = drive(
        &mut l,
        &mut execution,
        vec![ok("u"), ok("l"), ok("Added a file.")],
        vec![snapshot(&[("a.rs", "1")])],
        false,
        &[],
    );
    assert_eq!(run.commands, vec!["exit 1".to_string()]);
    assert_eq!(execution.status, ExecutionStatus::Failed);
    assert_eq!(execution.workflow.phase(), Phase::Validate);
    assert!(execution
        .messages
        .iter()
        .any(|e| matches!(e, ExecutionEvent::ValidationFailed { .. })));
    assert_eq!(execution.result.as_ref().unwrap().summary, "`exit 1` failed");
    assert_eq!(run.saved, Some((ExecutionStatus::Failed, Phase::Validate)));
}

#[test]
fn agent_review_runs_a_validate_turn_with_execute_only_access() {
    let (mut l, mut execution) = new_loop(request(Vec::new(), true));
    let mut review = outcome(OutcomeStatus::Completed, "Rebuilt and confirmed the fix.");
    review.completed = vec!["Ran the full build and confirmed the artifact is correct.".to_string()];
    review.open_items = vec!["A sibling module has the same latent issue.".to_string()];
    review.recommendation = Some("File a follow-up for the sibling module.".to_string());
    let run = drive(
        &mut l,
        &mut execution,
        vec![ok("u"), ok("l"), ok("Added a file."), Reply::Outcome(review)],
        vec![snapshot(&[("a.rs", "1")])],
        true,
        &[],
    );
    assert!(run.result.is_ok());
    assert_eq!(execution.status, ExecutionStatus::Completed);
    assert_eq!(run.modes.len(), 4);
    assert_eq!(run.modes[3], PermissionMode::ExecuteOnly);
    assert!(run.tools[3].contains(&"Bash".to_string()));
    assert!(!run.tools[3].contains(&"Edit".to_string()));
    let report = execution
        .result
        .as_ref()
        .unwrap()
        .validation
        .agent_review
        .as_ref()
        .unwrap();
    assert_eq!(report.summary, "Rebuilt and confirmed the fix.");
    assert_eq!(
        report.open_items,
        vec!["A sibling module has the same latent issue.".to_string()]
    );
}

#[test]
fn agent_review_failure_fails_the_execution() {
    let (mut l, mut execution) = new_loop(request(Vec::new(), true));
    let mut failed = outcome(OutcomeStatus::Failed, "Validation failed.");
    failed.failure_reason = Some("The packaged installer still does not contain the fix.".to_string());
    let run = drive(
        &mut l,
        &mut execution,
        vec![ok("u"), ok("l"), ok("Added a file."), Reply::Outcome(failed)],
        vec![snapshot(&[("a.rs", "1")])],
        true,
        &[],
    );
    assert!(run.result.is_ok());
    assert_eq!(execution.status, ExecutionStatus::Failed);
    assert_eq!(execution.workflow.phase(), Phase::Validate);
    assert_eq!(
        execution.result.as_ref().unwrap().summary,
        "The packaged installer still does not contain the fix."
    );
}

fn test_run(path: &str, content: &str) -> Execution {
    let (mut l, mut execution) = new_loop_for(CapabilityKind::Test, request(Vec::new(), false));
    drive(
        &mut l,
        &mut execution,
        vec![ok("u"), ok("l"), ok("Changed a file.")],
        vec![snapshot(&[("a.rs", "1")]), snapshot(&[("a.rs", "1"), (path, "2")])],
        true,
        &[(path, content)],
    );
    execution
}

#[test]
fn touching_a_non_test_file_fails_the_run() {
    let execution = test_run("src/lib.rs", "pub fn add(a: i32, b: i32) -> i32 { a + b + 1 }\n");
    assert_eq!(execution.status, ExecutionStatus::Failed);
    assert!(execution.result.as_ref().unwrap().summary.contains("lib.rs"));
}

#[test]
fn adding_a_dedicated_test_file_succeeds() {
    let execution = test_run("tests/add_test.rs", "#[test]\nfn adds() { assert_eq!(1 + 1, 2); }\n");
    assert_eq!(execution.status, ExecutionStatus::Completed);
}

#[test]
fn adding_a_colocated_rust_test_block_succeeds() {
    let execution = test_run(
        "lib.rs",
        "pub fn add(a: i32, b: i32) -> i32 { a + b }\n\n#[cfg(test)]\nmod tests {\n    use super::*;\n    #[test]\n    fn adds() { assert_eq!(add(1, 1), 2); }\n}\n",
    );
    assert_eq!(execution.status, ExecutionStatus::Completed);
}

#[test]
fn a_run_paused_in_the_review_turn_restates_the_decision_there() {
    let (mut l, mut execution) = new_loop(request(Vec::new(), true));
    let mut ask = outcome(OutcomeStatus::WaitingForHuman, "Need a decision.");
    ask.question = Some("Ship now or wait?".to_string());
    ask.options = vec![
        DecisionOption { id: "ship".into(), label: "Ship".into() },
        DecisionOption { id: "wait".into(), label: "Wait".into() },
    ];
    let run = drive(
        &mut l,
        &mut execution,
        vec![ok("u"), ok("l"), ok("Added a file."), Reply::Outcome(ask)],
        vec![snapshot(&[("a.rs", "1")])],
        true,
        &[],
    );
    assert!(run.result.is_ok());
    assert_eq!(execution.status, ExecutionStatus::WaitingForHuman);
    assert_eq!(execution.workflow.phase(), Phase::Validate);
    assert_eq!(run.saved, Some((ExecutionStatus::WaitingForHuman, Phase::Validate)));
    let registry = CapabilityRegistry::with_defaults();
    let resumption = prepare_resume(&mut execution, "ship", None, &registry).ok().unwrap();
    let suffix = resumption.decision_suffix.clone();
    let settings = LoopSettings { model: None, max_budget_usd: None, mcp_config: None, color: false };
    let mut resumed = PhaseLoop::new(
        resumption.capability,
        request(Vec::new(), true),
        texts(),
        settings,
        "/w".to_string(),
        resumption.session_id,
        Some(resumption.decision_suffix),
    );
    let run = drive(
        &mut resumed,
        &mut execution,
        vec![ok("Checked it.")],
        vec![snapshot(&[("a.rs", "1")])],
        true,
        &[],
    );
    assert!(run.result.is_ok());
    assert_eq!(run.modes, vec![PermissionMode::ExecuteOnly]);
    assert_eq!(run.prompts.len(), 1);
    assert!(run.prompts[0].ends_with(&suffix));
    assert_eq!(execution.status, ExecutionStatus::Completed);
    assert_eq!(run.saved, Some((ExecutionStatus::Completed, Phase::Report)));
}

#[test]
fn a_fresh_run_restates_nothing() {
    let (mut l, mut execution) = new_loop(request(Vec::new(), false));
    let run = drive(
        &mut l,
        &mut execution,
        vec![ok("u"), ok("l"), ok("done")],
        vec![snapshot(&[])],
        true,
        &[],
    );
    assert!(run.result.is_ok());
    assert_eq!(run.prompts.len(), 3);
    assert!(!run.prompts[0].contains("You previously asked"));
}
