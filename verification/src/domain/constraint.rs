use vstd::prelude::*;

use crate::text::copy_str;

verus! {

/// A single operating rule ksforge tells the agent about how it may work.
/// Constraints are policy: they never encode Git/GitHub concepts.
#[derive(Debug)]
pub struct Constraint {
    pub id: String,
    pub description: String,
}

impl View for Constraint {
    type V = (Seq<char>, Seq<char>);

    open spec fn view(&self) -> (Seq<char>, Seq<char>) {
        (self.id@, self.description@)
    }
}

impl DeepView for Constraint {
    type V = (Seq<char>, Seq<char>);

    open spec fn deep_view(&self) -> (Seq<char>, Seq<char>) {
        self@
    }
}

impl Clone for Constraint {
    fn clone(&self) -> (r: Self)
        ensures
            r@ == self@,
    {
        Constraint { id: self.id.clone(), description: self.description.clone() }
    }
}

impl Constraint {
    pub fn new(id: &str, description: &str) -> (r: Constraint)
        ensures
            r@ == (id@, description@),
    {
        Constraint { id: copy_str(id), description: copy_str(description) }
    }
}

/// The safety rules every capability runs under; capabilities may add to
/// them but never remove one.
pub open spec fn baseline_spec() -> Seq<(Seq<char>, Seq<char>)> {
    seq![
        ("inspect-before-edit"@,
         "Inspect the relevant parts of the repository before modifying files."@),
        ("avoid-unrelated-changes"@,
         "Do not modify files unrelated to the change request."@),
        ("no-secret-exposure"@,
         "Never print, log, commit, or embed API keys, tokens, or other secrets."@),
        ("no-arbitrary-dependencies"@,
         "Do not install or add dependencies unless the change request requires it."@),
    ]
}

pub open spec fn write_spec() -> Seq<(Seq<char>, Seq<char>)> {
    baseline_spec()
        .push(("preserve-public-api"@,
            "Preserve existing public APIs unless the change request explicitly requires changing them."@))
        .push(("run-existing-tests"@,
            "Run the project's existing test suite if one exists, before reporting success."@))
}

pub open spec fn read_only_spec() -> Seq<(Seq<char>, Seq<char>)> {
    baseline_spec().push(("read-only"@, "Do not modify any files; only read and report."@))
}

pub fn baseline_constraints() -> (r: Vec<Constraint>)
    ensures
        r.deep_view() == baseline_spec(),
{
    let mut r: Vec<Constraint> = Vec::new();
    r.push(Constraint::new(
        "inspect-before-edit",
        "Inspect the relevant parts of the repository before modifying files.",
    ));
    r.push(Constraint::new(
        "avoid-unrelated-changes",
        "Do not modify files unrelated to the change request.",
    ));
    r.push(Constraint::new(
        "no-secret-exposure",
        "Never print, log, commit, or embed API keys, tokens, or other secrets.",
    ));
    r.push(Constraint::new(
        "no-arbitrary-dependencies",
        "Do not install or add dependencies unless the change request requires it.",
    ));
    assert(r.deep_view() =~= baseline_spec());
    r
}

/// Baseline plus the rules for capabilities that modify the workspace.
pub fn write_constraints() -> (r: Vec<Constraint>)
    ensures
        r.deep_view() == write_spec(),
{
    let mut c = baseline_constraints();
    c.push(Constraint::new(
        "preserve-public-api",
        "Preserve existing public APIs unless the change request explicitly requires changing them.",
    ));
    c.push(Constraint::new(
        "run-existing-tests",
        "Run the project's existing test suite if one exists, before reporting success.",
    ));
    assert(c.deep_view() =~= write_spec());
    c
}

/// Baseline plus the read-only rule.
pub fn read_only_constraints() -> (r: Vec<Constraint>)
    ensures
        r.deep_view() == read_only_spec(),
{
    let mut c = baseline_constraints();
    c.push(Constraint::new("read-only", "Do not modify any files; only read and report."));
    assert(c.deep_view() =~= read_only_spec());
    c
}

/// Every constraint set starts with the baseline safety rules.
pub proof fn lemma_baseline_is_never_removed()
    ensures
        baseline_spec().is_prefix_of(write_spec()),
        baseline_spec().is_prefix_of(read_only_spec()),
{
    assert(write_spec().take(4) =~= baseline_spec());
    assert(read_only_spec().take(4) =~= baseline_spec());
}

} // verus!
