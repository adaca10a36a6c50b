use vstd::prelude::*;

use super::change_request::ChangeRequest;
use super::constraint::Constraint;

verus! {

/// Checks run after the agent reports success, before ksforge trusts the
/// result. Controlled by the user/project/workflow, never by the model.
#[derive(Debug)]
pub struct ValidationPolicy {
    /// Exact shell commands, run in order.
    pub commands: Vec<String>,
    /// Whether an agent-driven VALIDATE turn (execute-only tools) runs too.
    pub agent_review: bool,
}

/// Everything needed to run one capability against one change request in
/// one workspace.
#[derive(Debug)]
pub struct ImplementationRequest {
    pub change_request: ChangeRequest,
    /// The workspace root, as a path.
    pub workspace: String,
    pub capability: String,
    pub constraints: Vec<Constraint>,
    pub validation: ValidationPolicy,
}

} // verus!
