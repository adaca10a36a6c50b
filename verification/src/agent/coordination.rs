//! The coordination analysis: what the coordination agent reports about a
//! new change request relative to the workspace's other active
//! executions. Advisory only: `proceed: false` is surfaced, not enforced.
use vstd::prelude::*;

use super::executor::{schema_text_of, OutputSchema};

verus! {

/// The risk class of a change request relative to the work in flight.
#[derive(Clone, Copy, Debug, PartialEq, Eq, Structural)]
pub enum Classification {
    Low,
    Medium,
    High,
    Blocked,
}

pub open spec fn classification_text(c: Classification) -> Seq<char> {
    match c {
        Classification::Low => "LOW"@,
        Classification::Medium => "MEDIUM"@,
        Classification::High => "HIGH"@,
        Classification::Blocked => "BLOCKED"@,
    }
}

impl Classification {
    /// The class as it is written on the wire (upper case).
    pub fn as_str(&self) -> (r: &'static str)
        ensures
            r@ == classification_text(*self),
    {
        match self {
            Classification::Low => "LOW",
            Classification::Medium => "MEDIUM",
            Classification::High => "HIGH",
            Classification::Blocked => "BLOCKED",
        }
    }
}

/// The coordination agent's report.
#[derive(Debug)]
pub struct CoordinationDecision {
    pub classification: Classification,
    pub affected_scope: Vec<String>,
    pub related_executions: Vec<String>,
    pub dependencies: Vec<String>,
    pub conflicts: Vec<String>,
    pub recommendations: Vec<String>,
    pub proceed: bool,
}

/// The JSON Schema the coordination turn's final text is held to,
/// serialized compactly with its keys sorted.
pub fn schema() -> (r: &'static str)
    ensures
        r@ == schema_text_of(OutputSchema::Coordination),
{
    OutputSchema::Coordination.text()
}

} // verus!
