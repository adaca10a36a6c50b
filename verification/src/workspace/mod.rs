//! Filesystem concerns as plain values: change detection between
//! snapshots, where executions are stored, the change-request archive,
//! and dry-run path handling.

pub mod snapshot;
pub mod archive;
pub mod isolate;
pub mod store;
