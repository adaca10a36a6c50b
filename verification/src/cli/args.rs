//! The plain values the command line hands the library.
use vstd::prelude::*;

verus! {

/// How a command reports: a short human transcript, or exactly one JSON
/// object on stdout.
#[derive(Clone, Copy, Debug, PartialEq, Eq, Structural)]
pub enum OutputFormat {
    Text,
    Json,
}

impl Default for OutputFormat {
    fn default() -> (r: OutputFormat)
        ensures
            r == OutputFormat::Text,
    {
        OutputFormat::Text
    }
}

/// Which agent CLI runs the turns.
#[derive(Clone, Copy, Debug, PartialEq, Eq, Structural)]
pub enum Engine {
    ClaudeCode,
    Codex,
}

impl Default for Engine {
    fn default() -> (r: Engine)
        ensures
            r == Engine::ClaudeCode,
    {
        Engine::ClaudeCode
    }
}

/// `status <id>`.
pub struct StatusArgs {
    pub execution_id: String,
    pub workspace: String,
    pub format: OutputFormat,
}

/// `cancel <id>`.
pub struct CancelArgs {
    pub execution_id: String,
    /// Defaults to `cancelled by operator`.
    pub reason: String,
    pub workspace: String,
    pub format: OutputFormat,
}

/// `post-report <id> --pr <number>`.
pub struct PostReportArgs {
    pub execution_id: String,
    pub pr: u64,
    pub workspace: String,
}

/// `handle-comment`: a pull request comment to classify and check.
pub struct HandleCommentArgs {
    /// Required for `/ksforge choose`; a follow-up starts a new execution.
    pub execution_id: Option<String>,
    /// The GitHub comment id, the key a duplicate delivery is recognized by.
    pub comment_id: String,
    pub commenter: String,
    pub body: String,
    pub workspace: String,
}

} // verus!
