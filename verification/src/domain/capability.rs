use vstd::prelude::*;

use super::constraint::{read_only_constraints, read_only_spec, write_constraints, write_spec, Constraint};
use crate::text::str_eq;

verus! {

/// What a capability is allowed to touch, enforced through the tools the
/// agent is handed.
#[derive(Clone, Copy, Debug, PartialEq, Eq, Structural)]
pub enum ToolPolicy {
    /// Read/Grep/Glob only.
    ReadOnly,
    /// The full default tool set.
    ReadWrite,
}

/// A restriction on which files a capability's ACT phase may touch,
/// checked against the filesystem diff after ACT.
#[derive(Clone, Copy, Debug, PartialEq, Eq, Structural)]
pub enum ChangeScope {
    /// Only test files, or files showing an inline-test marker afterwards.
    TestsOnly,
}

/// A kind of operation ksforge can orchestrate. Every capability shares
/// one execution pipeline; each only supplies policy: id, description,
/// tool scope, default constraints, whether it may pause on a human
/// decision, and a restriction on what its ACT phase may change.
#[derive(Clone, Copy, Debug, PartialEq, Eq, Structural)]
pub enum CapabilityKind {
    Implement,
    Review,
    Fix,
    Explain,
    Txt2Img,
    Img2Img,
    Test,
}

pub open spec fn capability_id(k: CapabilityKind) -> Seq<char> {
    match k {
        CapabilityKind::Implement => "implement"@,
        CapabilityKind::Review => "review"@,
        CapabilityKind::Fix => "fix"@,
        CapabilityKind::Explain => "explain"@,
        CapabilityKind::Txt2Img => "txt2img"@,
        CapabilityKind::Img2Img => "img2img"@,
        CapabilityKind::Test => "test"@,
    }
}

pub open spec fn capability_description(k: CapabilityKind) -> Seq<char> {
    match k {
        CapabilityKind::Implement => "Implement a change request in the current workspace."@,
        CapabilityKind::Review => "Review code and report findings without modifying anything."@,
        CapabilityKind::Fix => "Diagnose and fix a described problem in the workspace."@,
        CapabilityKind::Explain => "Explain part of the workspace without modifying anything."@,
        CapabilityKind::Txt2Img => "Generate an image from a text prompt (stub, no real backend yet)."@,
        CapabilityKind::Img2Img => "Transform an existing image per a text prompt (stub, no real backend yet)."@,
        CapabilityKind::Test => "Add or update tests only — never modifies non-test source files."@,
    }
}

pub open spec fn capability_tool_policy(k: CapabilityKind) -> ToolPolicy {
    match k {
        CapabilityKind::Review | CapabilityKind::Explain => ToolPolicy::ReadOnly,
        _ => ToolPolicy::ReadWrite,
    }
}

/// `review` and `explain` have nothing to decide; `implement`, `fix` and
/// `test` may pause on a human decision; the image stubs never do.
pub open spec fn capability_supports_human(k: CapabilityKind) -> bool {
    match k {
        CapabilityKind::Implement | CapabilityKind::Fix | CapabilityKind::Test => true,
        _ => false,
    }
}

pub open spec fn capability_change_scope(k: CapabilityKind) -> Option<ChangeScope> {
    match k {
        CapabilityKind::Test => Some(ChangeScope::TestsOnly),
        _ => None,
    }
}

/// The read-only capabilities run under the read-only rules, every other
/// one under the write rules.
pub open spec fn capability_constraints(k: CapabilityKind) -> Seq<(Seq<char>, Seq<char>)> {
    match capability_tool_policy(k) {
        ToolPolicy::ReadOnly => read_only_spec(),
        ToolPolicy::ReadWrite => write_spec(),
    }
}

impl CapabilityKind {
    pub fn id(&self) -> (r: &'static str)
        ensures
            r@ == capability_id(*self),
    {
        match self {
            CapabilityKind::Implement => "implement",
            CapabilityKind::Review => "review",
            CapabilityKind::Fix => "fix",
            CapabilityKind::Explain => "explain",
            CapabilityKind::Txt2Img => "txt2img",
            CapabilityKind::Img2Img => "img2img",
            CapabilityKind::Test => "test",
        }
    }

    pub fn description(&self) -> (r: &'static str)
        ensures
            r@ == capability_description(*self),
    {
        match self {
            CapabilityKind::Implement => "Implement a change request in the current workspace.",
            CapabilityKind::Review => "Review code and report findings without modifying anything.",
            CapabilityKind::Fix => "Diagnose and fix a described problem in the workspace.",
            CapabilityKind::Explain => "Explain part of the workspace without modifying anything.",
            CapabilityKind::Txt2Img => "Generate an image from a text prompt (stub, no real backend yet).",
            CapabilityKind::Img2Img => "Transform an existing image per a text prompt (stub, no real backend yet).",
            CapabilityKind::Test => "Add or update tests only — never modifies non-test source files.",
        }
    }

    pub fn tool_policy(&self) -> (r: ToolPolicy)
        ensures
            r == capability_tool_policy(*self),
    {
        match self {
            CapabilityKind::Review | CapabilityKind::Explain => ToolPolicy::ReadOnly,
            _ => ToolPolicy::ReadWrite,
        }
    }

    pub fn supports_human_interaction(&self) -> (r: bool)
        ensures
            r == capability_supports_human(*self),
    {
        match self {
            CapabilityKind::Implement | CapabilityKind::Fix | CapabilityKind::Test => true,
            _ => false,
        }
    }

    pub fn change_scope(&self) -> (r: Option<ChangeScope>)
        ensures
            r == capability_change_scope(*self),
    {
        match self {
            CapabilityKind::Test => Some(ChangeScope::TestsOnly),
            _ => None,
        }
    }

    pub fn default_constraints(&self) -> (r: Vec<Constraint>)
        ensures
            r.deep_view() == capability_constraints(*self),
    {
        match self.tool_policy() {
            ToolPolicy::ReadOnly => read_only_constraints(),
            ToolPolicy::ReadWrite => write_constraints(),
        }
    }
}

/// The capabilities a run can name, in the order they are listed.
pub open spec fn default_capabilities() -> Seq<CapabilityKind> {
    seq![
        CapabilityKind::Implement,
        CapabilityKind::Review,
        CapabilityKind::Fix,
        CapabilityKind::Explain,
        CapabilityKind::Txt2Img,
        CapabilityKind::Test,
    ]
}

/// The first of `ks` whose id is `id`.
pub open spec fn find_capability(ks: Seq<CapabilityKind>, id: Seq<char>) -> Option<CapabilityKind>
    decreases ks.len(),
{
    if ks.len() == 0 {
        None
    } else if capability_id(ks[0]) == id {
        Some(ks[0])
    } else {
        find_capability(ks.drop_first(), id)
    }
}

/// The capabilities known to a run, looked up by id.
pub struct CapabilityRegistry {
    capabilities: Vec<CapabilityKind>,
}

impl View for CapabilityRegistry {
    type V = Seq<CapabilityKind>;

    closed spec fn view(&self) -> Seq<CapabilityKind> {
        self.capabilities@
    }
}

impl CapabilityRegistry {
    /// `implement`, `review`, `fix`, `explain`, `txt2img` and `test`.
    pub fn with_defaults() -> (r: CapabilityRegistry)
        ensures
            r@ == default_capabilities(),
    {
        let mut capabilities: Vec<CapabilityKind> = Vec::new();
        capabilities.push(CapabilityKind::Implement);
        capabilities.push(CapabilityKind::Review);
        capabilities.push(CapabilityKind::Fix);
        capabilities.push(CapabilityKind::Explain);
        capabilities.push(CapabilityKind::Txt2Img);
        capabilities.push(CapabilityKind::Test);
        proof {
            assert(capabilities@ =~= default_capabilities());
        }
        CapabilityRegistry { capabilities }
    }

    /// The capability named `id`, if the registry has one.
    pub fn get(&self, id: &str) -> (r: Option<CapabilityKind>)
        ensures
            r == find_capability(self@, id@),
    {
        let mut i: usize = 0;
        proof {
            assert(self.capabilities@.skip(0) =~= self.capabilities@);
        }
        while i < self.capabilities.len()
            invariant
                i <= self.capabilities@.len(),
                find_capability(self.capabilities@, id@) == find_capability(self.capabilities@.skip(i as int), id@),
            decreases self.capabilities@.len() - i,
        {
            let k = self.capabilities[i];
            proof {
                let rest = self.capabilities@.skip(i as int);
                assert(rest[0] == k);
                assert(rest.drop_first() =~= self.capabilities@.skip(i + 1));
            }
            if str_eq(k.id(), id) {
                return Some(k);
            }
            i = i + 1;
        }
        proof {
            assert(self.capabilities@.skip(i as int) =~= Seq::<CapabilityKind>::empty());
        }
        None
    }

    pub fn list(&self) -> (r: &Vec<CapabilityKind>)
        ensures
            r@ == self@,
    {
        &self.capabilities
    }
}

impl Default for CapabilityRegistry {
    fn default() -> (r: CapabilityRegistry)
        ensures
            r@ == default_capabilities(),
    {
        CapabilityRegistry::with_defaults()
    }
}

} // verus!
