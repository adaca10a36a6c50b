use ksforge::cli::chat::{chat_input, chat_line_readable, is_confirmation, route, ChatInput};

#[test]
fn defaults_to_implement() {
    assert_eq!(
        route("add a login page"),
        ("implement", "add a login page".to_string())
    );
}

#[test]
fn routes_review_case_insensitively() {
    assert_eq!(
        route("Review: check the auth module"),
        ("review", "check the auth module".to_string())
    );
}

#[test]
fn routes_fix_and_trims_the_remainder() {
    assert_eq!(
        route("fix:   the login button is dead"),
        ("fix", "the login button is dead".to_string())
    );
}

#[test]
fn routes_explain() {
    assert_eq!(
        route("explain: how does auth work"),
        ("explain", "how does auth work".to_string())
    );
}

#[test]
fn a_colon_with_no_recognized_prefix_still_implements() {
    assert_eq!(
        route("note: remember to update the docs"),
        ("implement", "note: remember to update the docs".to_string())
    );
}

#[test]
fn exit_and_quit_end_the_session_in_any_case() {
    assert!(matches!(chat_input("  EXIT \n", false), ChatInput::Quit));
    assert!(matches!(chat_input("quit", true), ChatInput::Quit));
}

#[test]
fn a_blank_line_is_skipped() {
    assert!(matches!(chat_input("   \n", false), ChatInput::Skip));
}

#[test]
fn a_line_answers_the_paused_gate() {
    match chat_input(" oauth2 \n", true) {
        ChatInput::Decide(d) => assert_eq!(d, "oauth2"),
        _ => panic!("expected a decision"),
    }
}

#[test]
fn a_line_starts_a_routed_turn_when_nothing_is_paused() {
    match chat_input("review: the auth module\n", false) {
        ChatInput::Run(c, t) => {
            assert_eq!(c, "review");
            assert_eq!(t, "the auth module");
        }
        _ => panic!("expected a turn"),
    }
}

#[test]
fn only_yes_answers_confirm_a_merge() {
    assert!(is_confirmation("y"));
    assert!(is_confirmation(" Yes\n"));
    assert!(is_confirmation("JA"));
    assert!(is_confirmation("j"));
    assert!(!is_confirmation("no"));
    assert!(!is_confirmation(""));
    assert!(!is_confirmation("yess"));
}

#[test]
fn a_paused_answer_is_read_whatever_it_holds() {
    assert!(chat_line_readable("abc\u{e9}xyz", true));
    assert!(!chat_line_readable("abc\u{e9}xyz", false));
    assert!(chat_line_readable("quit", false));
    match chat_input("abc\u{e9}xyz", true) {
        ChatInput::Decide(d) => assert_eq!(d, "abc\u{e9}xyz"),
        _ => panic!("expected a decision"),
    }
}
