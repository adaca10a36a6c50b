//! The structured reply of one phase turn: one flat object discriminated
//! by `status`, which the agent is held to through a JSON Schema.
use vstd::prelude::*;

use super::executor::{schema_text_of, OutputSchema};
use crate::domain::execution::{opt_str, DecisionOption, OptionView};

verus! {

/// How a phase turn ended.
#[derive(Clone, Copy, Debug, PartialEq, Eq, Structural)]
pub enum OutcomeStatus {
    Completed,
    WaitingForHuman,
    Failed,
}

pub open spec fn outcome_status_text(s: OutcomeStatus) -> Seq<char> {
    match s {
        OutcomeStatus::Completed => "completed"@,
        OutcomeStatus::WaitingForHuman => "waiting_for_human"@,
        OutcomeStatus::Failed => "failed"@,
    }
}

impl OutcomeStatus {
    /// The status as it is written on the wire (snake case).
    pub fn as_str(&self) -> (r: &'static str)
        ensures
            r@ == outcome_status_text(*self),
    {
        match self {
            OutcomeStatus::Completed => "completed",
            OutcomeStatus::WaitingForHuman => "waiting_for_human",
            OutcomeStatus::Failed => "failed",
        }
    }
}

/// What one phase turn reported. Each phase reads its own fields: the
/// scope from UNDERSTAND, the located context from LOCATE, the title and
/// work lists from ACT and VALIDATE, the question and options from a turn
/// that waits for a human.
#[derive(Debug)]
pub struct AgentOutcome {
    pub status: OutcomeStatus,
    /// A short headline for the change, used as the pull request title.
    pub title: Option<String>,
    pub summary: String,
    /// The agent's own claim; advisory only.
    pub changed_files: Vec<String>,
    pub scope: Vec<String>,
    pub relevant_files: Vec<String>,
    pub existing_abstractions: Vec<String>,
    pub existing_tests: Vec<String>,
    pub conventions: Vec<String>,
    pub question: Option<String>,
    pub options: Vec<DecisionOption>,
    pub failure_reason: Option<String>,
    pub completed: Vec<String>,
    pub open_items: Vec<String>,
    pub recommendation: Option<String>,
    /// Must name one of `options`; otherwise it is ignored.
    pub recommended_option: Option<String>,
}

pub struct OutcomeView {
    pub status: OutcomeStatus,
    pub title: Option<Seq<char>>,
    pub summary: Seq<char>,
    pub changed_files: Seq<Seq<char>>,
    pub scope: Seq<Seq<char>>,
    pub relevant_files: Seq<Seq<char>>,
    pub existing_abstractions: Seq<Seq<char>>,
    pub existing_tests: Seq<Seq<char>>,
    pub conventions: Seq<Seq<char>>,
    pub question: Option<Seq<char>>,
    pub options: Seq<OptionView>,
    pub failure_reason: Option<Seq<char>>,
    pub completed: Seq<Seq<char>>,
    pub open_items: Seq<Seq<char>>,
    pub recommendation: Option<Seq<char>>,
    pub recommended_option: Option<Seq<char>>,
}

impl View for AgentOutcome {
    type V = OutcomeView;

    open spec fn view(&self) -> OutcomeView {
        OutcomeView {
            status: self.status,
            title: opt_str(self.title),
            summary: self.summary@,
            changed_files: self.changed_files.deep_view(),
            scope: self.scope.deep_view(),
            relevant_files: self.relevant_files.deep_view(),
            existing_abstractions: self.existing_abstractions.deep_view(),
            existing_tests: self.existing_tests.deep_view(),
            conventions: self.conventions.deep_view(),
            question: opt_str(self.question),
            options: self.options.deep_view(),
            failure_reason: opt_str(self.failure_reason),
            completed: self.completed.deep_view(),
            open_items: self.open_items.deep_view(),
            recommendation: opt_str(self.recommendation),
            recommended_option: opt_str(self.recommended_option),
        }
    }
}

/// The JSON Schema a phase turn's final text is held to, serialized
/// compactly with its keys sorted.
pub fn schema() -> (r: &'static str)
    ensures
        r@ == schema_text_of(OutputSchema::Outcome),
{
    OutputSchema::Outcome.text()
}

} // verus!
