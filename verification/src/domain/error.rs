//! Error taxonomy. Each variant maps to a distinct process exit code so
//! scripts and CI can branch on the failure kind without parsing text.
use vstd::prelude::*;

use crate::text::{copy_str, push_str};

verus! {

#[verifier::external_type_specification]
#[verifier::external_body]
pub struct ExIoError(std::io::Error);

#[verifier::external_type_specification]
#[verifier::external_body]
pub struct ExSerdeJsonError(serde_json::Error);

pub enum KsforgeError {
    Usage(String),
    Config(String),
    ExecutorUnavailable(String),
    ExecutorFailed(String),
    ValidationFailed(String),
    PolicyViolation(String),
    Workspace(String),
    GitHub(String),
    ExecutionNotFound(String),
    Io(std::io::Error),
    Json(serde_json::Error),
}

pub type Result<T> = std::result::Result<T, KsforgeError>;

/// The exit code of each error kind:
/// 1 = general failure (workspace, GitHub, not found, I/O, JSON),
/// 2 = invalid usage or configuration, 3 = agent unavailable or failed,
/// 4 = validation failure, 5 = policy violation.
pub open spec fn exit_code_of(e: KsforgeError) -> i32 {
    match e {
        KsforgeError::Usage(_) | KsforgeError::Config(_) => 2,
        KsforgeError::ExecutorUnavailable(_) | KsforgeError::ExecutorFailed(_) => 3,
        KsforgeError::ValidationFailed(_) => 4,
        KsforgeError::PolicyViolation(_) => 5,
        _ => 1,
    }
}

/// `std::io::Error`'s `Display` text.
#[verifier::external_body]
pub fn io_error_text(e: &std::io::Error) -> String {
    e.to_string()
}

/// `serde_json::Error`'s `Display` text.
#[verifier::external_body]
pub fn json_error_text(e: &serde_json::Error) -> String {
    e.to_string()
}

/// The prefix each textual variant's message starts with.
pub open spec fn message_prefix(e: KsforgeError) -> Seq<char> {
    match e {
        KsforgeError::Usage(_) => "invalid usage: "@,
        KsforgeError::Config(_) => "configuration error: "@,
        KsforgeError::ExecutorUnavailable(_) => "the coding agent is unavailable: "@,
        KsforgeError::ExecutorFailed(_) => "coding agent execution failed: "@,
        KsforgeError::ValidationFailed(_) => "validation failed: "@,
        KsforgeError::PolicyViolation(_) => "policy violation: "@,
        KsforgeError::Workspace(_) => "workspace error: "@,
        KsforgeError::GitHub(_) => "GitHub integration error: "@,
        KsforgeError::ExecutionNotFound(_) => "execution not found: "@,
        _ => seq![],
    }
}

impl KsforgeError {
    /// Process exit code for this error; 0 is never returned here.
    pub fn exit_code(&self) -> (r: i32)
        ensures
            r == exit_code_of(*self),
            1 <= r <= 5,
    {
        match self {
            KsforgeError::Usage(_) | KsforgeError::Config(_) => 2,
            KsforgeError::ExecutorUnavailable(_) | KsforgeError::ExecutorFailed(_) => 3,
            KsforgeError::ValidationFailed(_) => 4,
            KsforgeError::PolicyViolation(_) => 5,
            KsforgeError::Workspace(_)
            | KsforgeError::GitHub(_)
            | KsforgeError::ExecutionNotFound(_)
            | KsforgeError::Io(_)
            | KsforgeError::Json(_) => 1,
        }
    }

    /// The human-readable message (the error's `Display` text): a fixed
    /// prefix per kind followed by the detail; I/O and JSON errors show
    /// their own text unchanged.
    pub fn message(&self) -> (r: String)
        ensures
            match self {
                KsforgeError::Io(_) | KsforgeError::Json(_) => true,
                KsforgeError::Usage(d) | KsforgeError::Config(d)
                | KsforgeError::ExecutorUnavailable(d) | KsforgeError::ExecutorFailed(d)
                | KsforgeError::ValidationFailed(d) | KsforgeError::PolicyViolation(d)
                | KsforgeError::Workspace(d) | KsforgeError::GitHub(d)
                | KsforgeError::ExecutionNotFound(d) => r@ == message_prefix(*self) + d@,
            },
    {
        let (prefix, detail) = match self {
            KsforgeError::Usage(d) => ("invalid usage: ", d),
            KsforgeError::Config(d) => ("configuration error: ", d),
            KsforgeError::ExecutorUnavailable(d) => ("the coding agent is unavailable: ", d),
            KsforgeError::ExecutorFailed(d) => ("coding agent execution failed: ", d),
            KsforgeError::ValidationFailed(d) => ("validation failed: ", d),
            KsforgeError::PolicyViolation(d) => ("policy violation: ", d),
            KsforgeError::Workspace(d) => ("workspace error: ", d),
            KsforgeError::GitHub(d) => ("GitHub integration error: ", d),
            KsforgeError::ExecutionNotFound(d) => ("execution not found: ", d),
            KsforgeError::Io(e) => {
                return io_error_text(e);
            },
            KsforgeError::Json(e) => {
                return json_error_text(e);
            },
        };
        let mut r = copy_str(prefix);
        push_str(&mut r, detail.as_str());
        r
    }
}

} // verus!
