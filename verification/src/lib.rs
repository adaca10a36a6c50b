//! Orchestration core for ksforge.
pub mod agent;
pub mod application;
pub mod cli;
pub mod color;
pub mod domain;
pub mod github;
pub mod handoff;
pub mod json;
pub mod path;
pub mod text;
pub mod validation;
pub mod workspace;
