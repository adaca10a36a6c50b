//! The application layer: the one phase-loop pipeline every capability
//! shares, how its prompts are assembled, how a paused run resumes, and
//! the coordination analysis.

pub mod capabilities;
pub mod coordinate;
pub mod execute;
pub mod prompt;
pub mod resume;
