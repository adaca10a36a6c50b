//! Where executions live on disk: under
//! `<workspace_root>/.ksforge/executions/<id>/`, the execution itself in
//! `state.json`, the request it started from in `request.json`, and one
//! empty marker per already-handled event under `processed-events/`. No
//! database and no daemon: reading and writing the files is the caller's
//! part.
use vstd::prelude::*;

use crate::domain::execution::ExecutionId;
use crate::path::{join_path, joined};

verus! {

pub struct ExecutionStore {
    root: String,
}

pub open spec fn store_root(workspace_root: Seq<char>) -> Seq<char> {
    joined(joined(workspace_root, ".ksforge"@), "executions"@)
}

impl ExecutionStore {
    pub closed spec fn root_spec(&self) -> Seq<char> {
        self.root@
    }

    pub fn new(workspace_root: &str) -> (r: ExecutionStore)
        ensures
            r.root_spec() == store_root(workspace_root@),
    {
        let k = join_path(workspace_root, ".ksforge");
        ExecutionStore { root: join_path(k.as_str(), "executions") }
    }

    pub fn root(&self) -> (r: &String)
        ensures
            r@ == self.root_spec(),
    {
        &self.root
    }

    pub fn dir_for(&self, id: &ExecutionId) -> (r: String)
        ensures
            r@ == joined(self.root_spec(), id@),
    {
        join_path(self.root.as_str(), id.0.as_str())
    }

    pub fn state_path(&self, id: &ExecutionId) -> (r: String)
        ensures
            r@ == joined(joined(self.root_spec(), id@), "state.json"@),
    {
        let d = self.dir_for(id);
        join_path(d.as_str(), "state.json")
    }

    pub fn request_path(&self, id: &ExecutionId) -> (r: String)
        ensures
            r@ == joined(joined(self.root_spec(), id@), "request.json"@),
    {
        let d = self.dir_for(id);
        join_path(d.as_str(), "request.json")
    }

    /// The marker recording that `event_id` (a GitHub comment id) was
    /// already acted on for this execution, so a duplicate delivery is a
    /// no-op.
    pub fn processed_event_path(&self, id: &ExecutionId, event_id: &str) -> (r: String)
        ensures
            r@ == joined(joined(joined(self.root_spec(), id@), "processed-events"@), event_id@),
    {
        let d = self.dir_for(id);
        let p = join_path(d.as_str(), "processed-events");
        join_path(p.as_str(), event_id)
    }

    /// Whether `event_id` was already acted on: whether its marker exists.
    pub fn event_already_processed(&self, id: &ExecutionId, event_id: &str) -> (r: bool) {
        let p = self.processed_event_path(id, event_id);
        path_exists(p.as_str())
    }
}

/// `Path::exists`. What is on disk decides; nothing is claimed.
#[verifier::external_body]
pub(crate) fn path_exists(p: &str) -> (r: bool) {
    std::path::Path::new(p).exists()
}

} // verus!
