use ksforge::domain::change_request::ChangeRequest;
use ksforge::domain::execution::{
    DecisionOption, Execution, ExecutionResult, HumanDecision, ValidationOutcome,
};
use ksforge::github::comment::{comments_query_args, find_marker_comment, report_args};
use ksforge::github::decision::{parse_choose_command, parse_follow_up_command, FollowUpCommand};
use ksforge::github::pull_request::{
    branch_name, commit_plan, pr_body, pr_url, pull_request_title, short_id,
};
use ksforge::github::repo::{nearest_marked, 
    discover_step, git_state_from, group_files, DiscoverStep, WalkEntry, DISCOVER_VISIT_CAP,
};
use ksforge::github::report::{marker_for, render};

#[test]
fn parses_a_bare_choose_command() {
    assert_eq!(
        parse_choose_command("/ksforge choose oauth2"),
        Some("oauth2".into())
    );
}

#[test]
fn parses_a_choose_command_among_other_text() {
    let body = "Sounds good, let's go with that.\n\n/ksforge choose oauth2\n\nthanks!";
    assert_eq!(parse_choose_command(body), Some("oauth2".into()));
}

#[test]
fn ignores_unrelated_comments() {
    assert_eq!(parse_choose_command("looks good to me"), None);
    assert_eq!(parse_choose_command("/ksforge choose"), None);
    assert_eq!(parse_choose_command("/ksforge choose  "), None);
}

#[test]
fn the_option_is_separated_from_choose_by_whitespace() {
    assert_eq!(parse_choose_command("/ksforge chooseoauth2"), None);
    assert_eq!(parse_choose_command("/ksforge choose\toauth2"), Some("oauth2".into()));
}

#[test]
fn parses_an_inline_follow_up_command() {
    assert_eq!(
        parse_follow_up_command("/ksforge fix the button is misaligned on mobile"),
        Some(FollowUpCommand {
            capability: "fix".into(),
            change_request: "the button is misaligned on mobile".into(),
        })
    );
}

#[test]
fn parses_a_multiline_follow_up_command_with_a_bare_trigger_line() {
    let body =
        "/ksforge implement\n\nAlso add a CHANGELOG entry for this.\n- and update the README";
    assert_eq!(
        parse_follow_up_command(body),
        Some(FollowUpCommand {
            capability: "implement".into(),
            change_request: "Also add a CHANGELOG entry for this.\n- and update the README"
                .into(),
        })
    );
}

#[test]
fn combines_inline_text_with_following_lines() {
    let body = "/ksforge fix crashes on startup\n\nStack trace:\nfoo.rs:42";
    assert_eq!(
        parse_follow_up_command(body),
        Some(FollowUpCommand {
            capability: "fix".into(),
            change_request: "crashes on startup\n\nStack trace:\nfoo.rs:42".into(),
        })
    );
}

#[test]
fn ignores_a_bare_trigger_with_no_change_request_at_all() {
    assert_eq!(parse_follow_up_command("/ksforge fix"), None);
    assert_eq!(parse_follow_up_command("/ksforge fix\n\n   \n"), None);
}

#[test]
fn does_not_false_match_a_word_that_merely_starts_with_the_capability_name() {
    assert_eq!(
        parse_follow_up_command("/ksforge implementation details below"),
        None
    );
}

#[test]
fn does_not_confuse_a_choose_command_with_a_follow_up() {
    assert_eq!(parse_follow_up_command("/ksforge choose oauth2"), None);
}

#[test]
fn ignores_comments_with_no_recognized_command() {
    assert_eq!(parse_follow_up_command("looks good to me"), None);
}

fn result_with_title(title: Option<&str>) -> ExecutionResult {
    ExecutionResult {
        success: true,
        title: title.map(String::from),
        summary: "Added a '## Change Requests einreichen' section to README, describing how to submit a change request via the workflow.".into(),
        changed_files: vec!["README.md".into()],
        validation: ValidationOutcome::default(),
        completed: Vec::new(),
        open_items: Vec::new(),
        recommendation: None,
    }
}

#[test]
fn prefers_the_agents_own_title() {
    let result = result_with_title(Some("Document change request submission in README"));
    assert_eq!(
        pull_request_title("implement", &result),
        "[implement] Document change request submission in README"
    );
}

#[test]
fn falls_back_to_a_truncated_summary_without_a_title() {
    let result = result_with_title(None);
    assert_eq!(
        pull_request_title("implement", &result),
        "[implement] Added a '## Change Requests einreichen' section to README, d..."
    );
}

#[test]
fn falls_back_when_the_title_is_blank() {
    let result = result_with_title(Some("   "));
    assert!(pull_request_title("implement", &result).starts_with("[implement] Added a"));
}

fn started(capability: &str) -> Execution {
    Execution::start(
        ChangeRequest::from_text("As a user, I want X.").ok().unwrap(),
        capability,
    )
}

#[test]
fn body_has_one_compact_metadata_line_not_three() {
    let mut execution = started("implement");
    execution.complete(result_with_title(Some("Document change request submission")));

    let body = pr_body(&execution);
    assert!(body.starts_with("## Change Request\n\nAs a user, I want X.\n\n---\n"));
    assert_eq!(body.lines().last().unwrap().matches('·').count(), 2);
}

#[test]
fn the_pr_body_names_the_validation_state() {
    let mut execution = started("fix");
    execution.complete(result_with_title(None));
    let body = pr_body(&execution);
    assert!(body.ends_with(&format!(
        "`fix` · `{}` · validation: not configured",
        execution.id.0
    )));
}

#[test]
fn the_branch_is_named_after_the_short_execution_id() {
    assert_eq!(short_id("ksf_0123456789abcdef"), "0123456789ab");
    assert_eq!(short_id("abc"), "abc");
    assert_eq!(branch_name("ksf_0123456789abcdef"), "ksforge/0123456789ab");
}

#[test]
fn nothing_is_committed_before_completion_or_without_changes() {
    let running = started("fix");
    assert!(commit_plan(&running).is_none());

    let mut no_changes = started("review");
    let mut result = result_with_title(Some("Findings"));
    result.changed_files.clear();
    no_changes.complete(result);
    assert!(commit_plan(&no_changes).is_none());

    let mut done = started("implement");
    done.complete(result_with_title(Some("Docs")));
    let plan = commit_plan(&done).unwrap();
    assert_eq!(plan.title, "[implement] Docs");
    assert_eq!(plan.changed_files, vec!["README.md".to_string()]);
    assert!(plan.branch.starts_with("ksforge/"));
}

#[test]
fn the_pr_url_is_the_last_line_gh_prints() {
    assert_eq!(
        pr_url("Creating pull request...\nhttps://github.com/o/r/pull/7\n"),
        Some("https://github.com/o/r/pull/7".to_string())
    );
    assert_eq!(pr_url("  \n"), None);
}

fn options() -> Vec<DecisionOption> {
    vec![
        DecisionOption {
            id: "oauth2".into(),
            label: "OAuth 2".into(),
        },
        DecisionOption {
            id: "jwt".into(),
            label: "JWT".into(),
        },
    ]
}

#[test]
fn waiting_report_carries_marker_and_recommendation() {
    let mut exec = started("implement");
    exec.ask(
        "OAuth2 or JWT?".into(),
        options(),
        Some("oauth2".into()),
        "The repo already has an OAuth boundary.".into(),
        vec!["Analyzed the auth module.".into()],
    );

    let body = render(&exec);
    assert!(body.starts_with(&marker_for(&exec.id.0)));
    assert!(body.contains("Decision required"));
    assert!(body.contains("Analyzed the auth module."));
    assert!(body.contains("**OAuth 2**"));
    assert!(body.contains("/ksforge choose oauth2"));
    assert!(body.contains("/ksforge choose jwt"));
    assert!(body.contains("WAITING_FOR_HUMAN"));
}

#[test]
fn waiting_report_without_recommendation_says_so() {
    let mut exec = started("implement");
    exec.ask(
        "Postgres or MySQL?".into(),
        vec![DecisionOption {
            id: "postgres".into(),
            label: "Postgres".into(),
        }],
        None,
        String::new(),
        Vec::new(),
    );

    let body = render(&exec);
    assert!(body.contains("No recommendation given."));
    assert!(body.contains("No prior progress recorded."));
}

#[test]
fn completed_report_lists_decisions_and_no_further_action() {
    let mut exec = started("implement");
    exec.ask(
        "OAuth2 or JWT?".into(),
        vec![DecisionOption {
            id: "oauth2".into(),
            label: "OAuth 2".into(),
        }],
        None,
        String::new(),
        Vec::new(),
    );
    exec.apply_decision(&HumanDecision {
        execution_id: exec.id.clone(),
        option: "oauth2".into(),
        decided_by: Some("chevp".into()),
    });
    exec.complete(ExecutionResult {
        success: true,
        title: Some("Add OAuth2 authentication".into()),
        summary: "Implemented OAuth2 authentication.".into(),
        changed_files: vec!["src/auth.rs".into()],
        validation: ValidationOutcome::default(),
        completed: vec!["Implemented OAuth 2.0 authentication.".into()],
        open_items: Vec::new(),
        recommendation: None,
    });

    let body = render(&exec);
    assert!(body.contains("## ksforge — Completed"));
    assert!(body.contains("OAuth2 or JWT?: OAuth 2"));
    assert!(body.contains("No further action required."));
    assert!(body.contains("COMPLETED"));
}

#[test]
fn failed_report_shows_summary() {
    let mut exec = started("implement");
    exec.fail("validate.sh failed");
    let body = render(&exec);
    assert!(body.contains("Failed: validate.sh failed"));
    assert!(body.contains("FAILED"));
}

#[test]
fn the_marker_comment_is_found_among_others() {
    let exec = started("implement");
    let marker = marker_for(&exec.id.0);
    let reply = format!(
        "[{{\"id\": 1, \"body\": \"ship it\"}}, {{\"id\": 42, \"body\": \"{}\\nstatus\"}}, {{\"id\": 43, \"body\": \"{}\"}}]",
        marker, marker
    );
    assert_eq!(find_marker_comment(&reply, &marker).ok().unwrap(), Some(42));
    assert_eq!(
        find_marker_comment("[{\"id\": 1, \"body\": \"ship it\"}]", &marker).ok().unwrap(),
        None
    );
}

#[test]
fn a_comment_without_a_readable_id_is_passed_over() {
    let reply = "[{\"id\": \"x\", \"body\": \"<!-- m -->\"}, {\"id\": 9, \"body\": \"<!-- m -->\"}]";
    assert_eq!(find_marker_comment(reply, "<!-- m -->").ok().unwrap(), Some(9));
}

#[test]
fn a_reply_that_is_not_an_array_is_a_json_error() {
    assert!(matches!(
        find_marker_comment("{\"message\": \"Not Found\"}", "m"),
        Err(ksforge::domain::error::KsforgeError::Json(_))
    ));
    assert!(find_marker_comment("not json", "m").is_err());
}

#[test]
fn a_found_report_is_edited_and_a_new_one_is_posted() {
    assert_eq!(
        comments_query_args(12),
        vec!["api", "repos/{owner}/{repo}/issues/12/comments", "--paginate"]
    );
    assert_eq!(
        report_args(12, Some(42), "hello"),
        vec![
            "api",
            "repos/{owner}/{repo}/issues/comments/42",
            "-X",
            "PATCH",
            "-f",
            "body=hello"
        ]
    );
    assert_eq!(
        report_args(12, None, "hello"),
        vec!["pr", "comment", "12", "--body", "hello"]
    );
}

#[test]
fn a_single_repo_at_workspace_root_yields_one_group() {
    let files = vec!["README.md".to_string()];
    let (groups, unversioned) = group_files("/w", &files, &vec![Some(0)]);
    assert_eq!(groups.len(), 1);
    assert_eq!(groups[0].0, "/w");
    assert_eq!(groups[0].1, vec!["README.md".to_string()]);
    assert!(unversioned.is_empty());
}

#[test]
fn files_with_no_git_anywhere_are_unversioned() {
    let files = vec!["notes.md".to_string()];
    let (groups, unversioned) = group_files("/w", &files, &vec![None]);
    assert!(groups.is_empty());
    assert_eq!(unversioned, vec!["notes.md".to_string()]);
}

#[test]
fn sibling_repos_under_a_non_git_root_group_separately() {
    let files = vec!["one/f.txt".to_string(), "two/f.txt".to_string()];
    let (groups, unversioned) = group_files("/w", &files, &vec![Some(1), Some(1)]);
    assert!(unversioned.is_empty());
    assert_eq!(groups.len(), 2);
    assert_eq!(groups[0].0, "/w/one");
    assert_eq!(groups[0].1, vec!["f.txt".to_string()]);
    assert_eq!(groups[1].0, "/w/two");
}

#[test]
fn a_nested_repo_groups_deeper_than_its_parent_and_sorts_first() {
    let files = vec![
        "outer.txt".to_string(),
        "vendor/lib/inner.txt".to_string(),
        "vendor/lib/src/x.rs".to_string(),
    ];
    let (groups, unversioned) = group_files("/w", &files, &vec![Some(0), Some(2), Some(2)]);
    assert!(unversioned.is_empty());
    assert_eq!(groups.len(), 2);
    assert_eq!(groups[0].0, "/w/vendor/lib");
    assert_eq!(
        groups[0].1,
        vec!["inner.txt".to_string(), "src/x.rs".to_string()]
    );
    assert_eq!(groups[1].0, "/w");
    assert_eq!(groups[1].1, vec!["outer.txt".to_string()]);
}

#[test]
fn git_state_reads_the_branch_and_whether_anything_changed() {
    let clean = git_state_from(Ok("main\n".into()), Ok(String::new()));
    assert_eq!(clean.branch, "main");
    assert!(!clean.dirty);
    let dirty = git_state_from(Ok("  \n".into()), Ok(" M f.txt\n".into()));
    assert_eq!(dirty.branch, "detached");
    assert!(dirty.dirty);
    let unreadable = git_state_from(Err("fatal".into()), Err("fatal".into()));
    assert_eq!(unreadable.branch, "detached");
    assert!(!unreadable.dirty);
}

fn entry(depth: usize, is_dir: bool, name: &str, has_git: bool) -> Option<WalkEntry> {
    Some(WalkEntry {
        depth,
        is_dir,
        name: name.to_string(),
        has_git,
    })
}

#[test]
fn discovery_records_repos_prunes_ignored_dirs_and_stops_at_the_cap() {
    assert_eq!(discover_step(1, &entry(0, true, "w", true)), DiscoverStep::Record);
    assert_eq!(discover_step(2, &entry(1, true, "node_modules", true)), DiscoverStep::Prune);
    assert_eq!(discover_step(2, &entry(0, true, "target", false)), DiscoverStep::Descend);
    assert_eq!(discover_step(3, &entry(1, false, "f.txt", false)), DiscoverStep::Pass);
    assert_eq!(discover_step(3, &None), DiscoverStep::Pass);
    assert_eq!(
        discover_step(DISCOVER_VISIT_CAP + 1, &entry(1, true, "x", true)),
        DiscoverStep::Stop
    );
}

#[test]
fn the_deepest_marked_level_is_the_nearest_repository() {
    assert_eq!(nearest_marked(&vec![true, false, true, false]), Some(2));
    assert_eq!(nearest_marked(&vec![true, false, false]), Some(0));
    assert_eq!(nearest_marked(&vec![false, false]), None);
    assert_eq!(nearest_marked(&vec![]), None);
}
