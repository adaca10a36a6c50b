//! GitHub and Git as plain values: the only place branch, commit and pull
//! request concepts exist. Running `git` and `gh` is the caller's part;
//! what to run and how to read the replies is here.

pub mod comment;
pub mod report;
pub mod decision;
pub mod pull_request;
pub mod repo;
