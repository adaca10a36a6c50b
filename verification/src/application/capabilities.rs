//! One value per verb. Each only names its policy, which
//! [`CapabilityKind`] spells out.
use vstd::prelude::*;

use crate::domain::capability::CapabilityKind;

verus! {

/// Implements a change request end to end; the primary capability, with
/// full human-in-the-loop depth.
pub struct Implement;

/// Analyzes code and reports findings; never modifies files.
pub struct Review;

/// Diagnoses and fixes a described problem.
pub struct Fix;

/// Explains part of the workspace; never modifies files.
pub struct Explain;

/// Generates an image from a text prompt (a stub with no real backend).
pub struct Txt2Img;

/// Transforms an existing image per a text prompt (a stub with no real
/// backend).
pub struct Img2Img;

/// Adds or updates tests only; what its ACT phase may change is checked
/// against the filesystem diff, whatever the agent reports.
pub struct Test;

impl Implement {
    pub fn kind(&self) -> (r: CapabilityKind)
        ensures
            r == CapabilityKind::Implement,
    {
        CapabilityKind::Implement
    }
}

impl Review {
    pub fn kind(&self) -> (r: CapabilityKind)
        ensures
            r == CapabilityKind::Review,
    {
        CapabilityKind::Review
    }
}

impl Fix {
    pub fn kind(&self) -> (r: CapabilityKind)
        ensures
            r == CapabilityKind::Fix,
    {
        CapabilityKind::Fix
    }
}

impl Explain {
    pub fn kind(&self) -> (r: CapabilityKind)
        ensures
            r == CapabilityKind::Explain,
    {
        CapabilityKind::Explain
    }
}

impl Txt2Img {
    pub fn kind(&self) -> (r: CapabilityKind)
        ensures
            r == CapabilityKind::Txt2Img,
    {
        CapabilityKind::Txt2Img
    }
}

impl Img2Img {
    pub fn kind(&self) -> (r: CapabilityKind)
        ensures
            r == CapabilityKind::Img2Img,
    {
        CapabilityKind::Img2Img
    }
}

impl Test {
    pub fn kind(&self) -> (r: CapabilityKind)
        ensures
            r == CapabilityKind::Test,
    {
        CapabilityKind::Test
    }
}

} // verus!
