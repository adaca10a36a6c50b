//! The UNDERSTAND -> LOCATE -> ACT -> VALIDATE -> REPORT loop as a
//! host-enforced state machine. Each state carries everything the phases
//! before it produced, so `Act` cannot be reached without a `Locate` value
//! (and so on); a transition out of the wrong state is rejected.
use vstd::prelude::*;

use super::execution::{clone_strings, opt_str, ValidationOutcome, ValidationView};

verus! {

#[derive(Clone, Copy, Debug, PartialEq, Eq, Structural)]
pub enum Phase {
    Understand,
    Locate,
    Act,
    Validate,
    Report,
}

pub open spec fn phase_text(p: Phase) -> Seq<char> {
    match p {
        Phase::Understand => "understand"@,
        Phase::Locate => "locate"@,
        Phase::Act => "act"@,
        Phase::Validate => "validate"@,
        Phase::Report => "report"@,
    }
}

impl Phase {
    pub fn as_str(&self) -> (r: &'static str)
        ensures
            r@ == phase_text(*self),
    {
        match self {
            Phase::Understand => "understand",
            Phase::Locate => "locate",
            Phase::Act => "act",
            Phase::Validate => "validate",
            Phase::Report => "report",
        }
    }
}

/// What the UNDERSTAND phase determined.
#[derive(Debug)]
pub struct Understanding {
    pub summary: String,
    pub scope: Vec<String>,
}

pub struct UnderstandingView {
    pub summary: Seq<char>,
    pub scope: Seq<Seq<char>>,
}

impl View for Understanding {
    type V = UnderstandingView;

    open spec fn view(&self) -> UnderstandingView {
        UnderstandingView { summary: self.summary@, scope: self.scope.deep_view() }
    }
}

impl Clone for Understanding {
    fn clone(&self) -> (r: Self)
        ensures
            r@ == self@,
    {
        Understanding { summary: self.summary.clone(), scope: clone_strings(&self.scope) }
    }
}

/// What the LOCATE phase found in the repository.
#[derive(Debug)]
pub struct LocatedContext {
    pub relevant_files: Vec<String>,
    pub existing_abstractions: Vec<String>,
    pub existing_tests: Vec<String>,
    pub conventions: Vec<String>,
}

pub struct LocatedView {
    pub relevant_files: Seq<Seq<char>>,
    pub existing_abstractions: Seq<Seq<char>>,
    pub existing_tests: Seq<Seq<char>>,
    pub conventions: Seq<Seq<char>>,
}

impl View for LocatedContext {
    type V = LocatedView;

    open spec fn view(&self) -> LocatedView {
        LocatedView {
            relevant_files: self.relevant_files.deep_view(),
            existing_abstractions: self.existing_abstractions.deep_view(),
            existing_tests: self.existing_tests.deep_view(),
            conventions: self.conventions.deep_view(),
        }
    }
}

impl Clone for LocatedContext {
    fn clone(&self) -> (r: Self)
        ensures
            r@ == self@,
    {
        LocatedContext {
            relevant_files: clone_strings(&self.relevant_files),
            existing_abstractions: clone_strings(&self.existing_abstractions),
            existing_tests: clone_strings(&self.existing_tests),
            conventions: clone_strings(&self.conventions),
        }
    }
}

/// What kind of result the ACT phase produced. Derived by the host from
/// the capability and the filesystem diff, never reported by the model.
#[derive(Clone, Copy, Debug, PartialEq, Eq, Structural)]
pub enum ActionKind {
    Modify,
    Findings,
    Explain,
    NoChange,
}

pub open spec fn derived_kind(capability_id: Seq<char>, changed_files_is_empty: bool) -> ActionKind {
    if capability_id == "review"@ {
        ActionKind::Findings
    } else if capability_id == "explain"@ {
        ActionKind::Explain
    } else if changed_files_is_empty {
        ActionKind::NoChange
    } else {
        ActionKind::Modify
    }
}

impl ActionKind {
    pub fn derive(capability_id: &str, changed_files_is_empty: bool) -> (r: ActionKind)
        ensures
            r == derived_kind(capability_id@, changed_files_is_empty),
    {
        if crate::text::str_eq(capability_id, "review") {
            ActionKind::Findings
        } else if crate::text::str_eq(capability_id, "explain") {
            ActionKind::Explain
        } else if changed_files_is_empty {
            ActionKind::NoChange
        } else {
            ActionKind::Modify
        }
    }
}

/// What the ACT phase produced.
#[derive(Debug)]
pub struct ActionResult {
    pub kind: ActionKind,
    pub title: Option<String>,
    pub summary: String,
    /// The filesystem diff around the ACT turn (paths relative to the
    /// working directory), never the model's own claim.
    pub changed_files: Vec<String>,
    pub completed: Vec<String>,
    pub open_items: Vec<String>,
    pub recommendation: Option<String>,
}

pub struct ActionView {
    pub kind: ActionKind,
    pub title: Option<Seq<char>>,
    pub summary: Seq<char>,
    pub changed_files: Seq<Seq<char>>,
    pub completed: Seq<Seq<char>>,
    pub open_items: Seq<Seq<char>>,
    pub recommendation: Option<Seq<char>>,
}

impl View for ActionResult {
    type V = ActionView;

    open spec fn view(&self) -> ActionView {
        ActionView {
            kind: self.kind,
            title: opt_str(self.title),
            summary: self.summary@,
            changed_files: self.changed_files.deep_view(),
            completed: self.completed.deep_view(),
            open_items: self.open_items.deep_view(),
            recommendation: opt_str(self.recommendation),
        }
    }
}

impl Clone for ActionResult {
    fn clone(&self) -> (r: Self)
        ensures
            r@ == self@,
    {
        ActionResult {
            kind: self.kind,
            title: super::execution::clone_opt_string(&self.title),
            summary: self.summary.clone(),
            changed_files: clone_strings(&self.changed_files),
            completed: clone_strings(&self.completed),
            open_items: clone_strings(&self.open_items),
            recommendation: super::execution::clone_opt_string(&self.recommendation),
        }
    }
}

/// A rejected transition: the workflow was at `from` and could not advance
/// to `attempted`.
#[derive(Clone, Copy, Debug, PartialEq, Eq, Structural)]
pub struct TransitionError {
    pub from: Phase,
    pub attempted: Phase,
}

/// The durable state of one capability run's phase loop.
#[derive(Debug)]
pub enum WorkflowState {
    Understand,
    Locate { understanding: Understanding },
    Act { understanding: Understanding, located: LocatedContext },
    Validate { understanding: Understanding, located: LocatedContext, action: ActionResult },
    Report {
        understanding: Understanding,
        located: LocatedContext,
        action: ActionResult,
        validation: ValidationOutcome,
    },
    /// An execution stored before the phase loop existed. Never produced by
    /// `start`; resuming one is refused.
    Legacy,
}

pub enum WorkflowView {
    Understand,
    Locate { understanding: UnderstandingView },
    Act { understanding: UnderstandingView, located: LocatedView },
    Validate { understanding: UnderstandingView, located: LocatedView, action: ActionView },
    Report {
        understanding: UnderstandingView,
        located: LocatedView,
        action: ActionView,
        validation: ValidationView,
    },
    Legacy,
}

impl View for WorkflowState {
    type V = WorkflowView;

    open spec fn view(&self) -> WorkflowView {
        match self {
            WorkflowState::Understand => WorkflowView::Understand,
            WorkflowState::Locate { understanding } => WorkflowView::Locate {
                understanding: understanding@,
            },
            WorkflowState::Act { understanding, located } => WorkflowView::Act {
                understanding: understanding@,
                located: located@,
            },
            WorkflowState::Validate { understanding, located, action } => WorkflowView::Validate {
                understanding: understanding@,
                located: located@,
                action: action@,
            },
            WorkflowState::Report { understanding, located, action, validation } =>
                WorkflowView::Report {
                understanding: understanding@,
                located: located@,
                action: action@,
                validation: validation@,
            },
            WorkflowState::Legacy => WorkflowView::Legacy,
        }
    }
}

impl Clone for WorkflowState {
    fn clone(&self) -> (r: Self)
        ensures
            r@ == self@,
    {
        match self {
            WorkflowState::Understand => WorkflowState::Understand,
            WorkflowState::Locate { understanding } => WorkflowState::Locate {
                understanding: understanding.clone(),
            },
            WorkflowState::Act { understanding, located } => WorkflowState::Act {
                understanding: understanding.clone(),
                located: located.clone(),
            },
            WorkflowState::Validate { understanding, located, action } => WorkflowState::Validate {
                understanding: understanding.clone(),
                located: located.clone(),
                action: action.clone(),
            },
            WorkflowState::Report { understanding, located, action, validation } =>
                WorkflowState::Report {
                understanding: understanding.clone(),
                located: located.clone(),
                action: action.clone(),
                validation: validation.clone(),
            },
            WorkflowState::Legacy => WorkflowState::Legacy,
        }
    }
}

/// The phase a state is in; `Legacy` reports as `Report`.
pub open spec fn phase_of(w: WorkflowView) -> Phase {
    match w {
        WorkflowView::Understand => Phase::Understand,
        WorkflowView::Locate { .. } => Phase::Locate,
        WorkflowView::Act { .. } => Phase::Act,
        WorkflowView::Validate { .. } => Phase::Validate,
        WorkflowView::Report { .. } => Phase::Report,
        WorkflowView::Legacy => Phase::Report,
    }
}

/// The phase that follows `p` (`Report` is last).
pub open spec fn next_phase(p: Phase) -> Phase {
    match p {
        Phase::Understand => Phase::Locate,
        Phase::Locate => Phase::Act,
        Phase::Act => Phase::Validate,
        Phase::Validate => Phase::Report,
        Phase::Report => Phase::Report,
    }
}

/// The error a rejected transition towards `attempted` reports.
pub open spec fn rejected(w: WorkflowView, attempted: Phase) -> TransitionError {
    TransitionError { from: phase_of(w), attempted }
}

impl WorkflowState {
    /// Every run starts at UNDERSTAND.
    pub fn start() -> (r: WorkflowState)
        ensures
            r@ == WorkflowView::Understand,
    {
        WorkflowState::Understand
    }

    pub fn phase(&self) -> (r: Phase)
        ensures
            r == phase_of(self@),
    {
        match self {
            WorkflowState::Understand => Phase::Understand,
            WorkflowState::Locate { .. } => Phase::Locate,
            WorkflowState::Act { .. } => Phase::Act,
            WorkflowState::Validate { .. } => Phase::Validate,
            WorkflowState::Report { .. } => Phase::Report,
            WorkflowState::Legacy => Phase::Report,
        }
    }

    pub fn is_legacy(&self) -> (r: bool)
        ensures
            r == (self@ is Legacy),
    {
        match self {
            WorkflowState::Legacy => true,
            _ => false,
        }
    }

    /// UNDERSTAND -> LOCATE, carrying `understanding`.
    pub fn complete_understand(self, understanding: Understanding) -> (r: Result<
        WorkflowState,
        TransitionError,
    >)
        ensures
            self@ is Understand ==> (r matches Ok(s) && s@ == (WorkflowView::Locate {
                understanding: understanding@,
            })),
            !(self@ is Understand) ==> r == Err::<WorkflowState, _>(rejected(self@, Phase::Locate)),
    {
        match self {
            WorkflowState::Understand => Ok(WorkflowState::Locate { understanding }),
            other => Err(TransitionError { from: other.phase(), attempted: Phase::Locate }),
        }
    }

    /// LOCATE -> ACT, carrying the understanding and `located`.
    pub fn complete_locate(self, located: LocatedContext) -> (r: Result<
        WorkflowState,
        TransitionError,
    >)
        ensures
            self@ matches WorkflowView::Locate { understanding } ==> (r matches Ok(s) && s@
                == (WorkflowView::Act { understanding, located: located@ })),
            !(self@ is Locate) ==> r == Err::<WorkflowState, _>(rejected(self@, Phase::Act)),
    {
        match self {
            WorkflowState::Locate { understanding } => Ok(WorkflowState::Act { understanding, located }),
            other => Err(TransitionError { from: other.phase(), attempted: Phase::Act }),
        }
    }

    /// ACT -> VALIDATE, carrying everything so far and `action`.
    pub fn complete_act(self, action: ActionResult) -> (r: Result<WorkflowState, TransitionError>)
        ensures
            self@ matches WorkflowView::Act { understanding, located } ==> (r matches Ok(s) && s@
                == (WorkflowView::Validate { understanding, located, action: action@ })),
            !(self@ is Act) ==> r == Err::<WorkflowState, _>(rejected(self@, Phase::Validate)),
    {
        match self {
            WorkflowState::Act { understanding, located } => Ok(
                WorkflowState::Validate { understanding, located, action },
            ),
            other => Err(TransitionError { from: other.phase(), attempted: Phase::Validate }),
        }
    }

    /// VALIDATE -> REPORT, carrying everything so far and `validation`.
    pub fn complete_validate(self, validation: ValidationOutcome) -> (r: Result<
        WorkflowState,
        TransitionError,
    >)
        ensures
            self@ matches WorkflowView::Validate { understanding, located, action } ==> (r matches Ok(
                s,
            ) && s@ == (WorkflowView::Report {
                understanding,
                located,
                action,
                validation: validation@,
            })),
            !(self@ is Validate) ==> r == Err::<WorkflowState, _>(rejected(self@, Phase::Report)),
    {
        match self {
            WorkflowState::Validate { understanding, located, action } => Ok(
                WorkflowState::Report { understanding, located, action, validation },
            ),
            other => Err(TransitionError { from: other.phase(), attempted: Phase::Report }),
        }
    }
}

/// Every successful transition moves exactly one phase forward, and every
/// transition out of the wrong phase is rejected naming both phases.
pub proof fn lemma_transitions_advance_one_phase(w: WorkflowView, understanding: UnderstandingView, located: LocatedView, action: ActionView, validation: ValidationView)
    ensures
        phase_of(WorkflowView::Locate { understanding }) == next_phase(Phase::Understand),
        w matches WorkflowView::Locate { understanding: u } ==> phase_of(
            WorkflowView::Act { understanding: u, located },
        ) == next_phase(phase_of(w)),
        w matches WorkflowView::Act { understanding: u, located: l } ==> phase_of(
            WorkflowView::Validate { understanding: u, located: l, action },
        ) == next_phase(phase_of(w)),
        w matches WorkflowView::Validate { understanding: u, located: l, action: a } ==> phase_of(
            WorkflowView::Report { understanding: u, located: l, action: a, validation },
        ) == next_phase(phase_of(w)),
{
}

} // verus!
