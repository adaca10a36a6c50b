//! The execution-engine boundary: what ksforge asks of a coding agent and
//! how it reads the agent's replies.

pub mod claude_code;
pub mod codex;
pub mod coordination;
pub mod executor;
pub mod outcome;

pub use executor::{AgentError, AgentRequest, AgentResult, OutputSchema, PermissionMode};
