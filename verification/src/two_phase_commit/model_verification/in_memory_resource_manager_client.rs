//! A participant's remote-control surface, driven directly against an owned
//! state store: the remote commit and abort commands with their exact gates.

use vstd::prelude::*;

use crate::two_phase_commit::model::resource_manager::{
    is_abort_command_allowed, is_commit_command_allowed, Id, ResourceManagerClient,
    ResourceManagerClientError, ResourceManagerState, ResourceManagerStateStore,
};
use crate::two_phase_commit::protocol::{client_abort_step, client_commit_step};

verus! {

/// A deterministic client for one participant: holds the participant's
/// identity and its state store.
pub struct InMemoryResourceManagerClient<S: ResourceManagerStateStore> {
    pub id: Id,
    pub state_store: S,
}

impl<S: ResourceManagerStateStore> ResourceManagerClient for InMemoryResourceManagerClient<S> {
    open spec fn id_spec(&self) -> Option<Seq<char>> {
        Some(self.id@)
    }

    open spec fn state_spec(&self) -> ResourceManagerState {
        self.state_store.state_spec()
    }

    fn get_id(&self) -> (r: Result<Id, ResourceManagerClientError>)
        ensures
            r matches Ok(id) && id == self.id,
    {
        Ok(self.id.clone())
    }

    /// Succeeds and persists COMMITTED exactly from {COMMITTED, PREPARED};
    /// from any other state it fails carrying that state and changes nothing.
    fn commit(&mut self) -> (r: Result<(), ResourceManagerClientError>)
        ensures
            r is Ok == client_commit_step(old(self).state_spec()).0,
            final(self).state_spec() == client_commit_step(old(self).state_spec()).1,
            r matches Err(e) ==> e == ResourceManagerClientError::StateError(
                old(self).state_spec(),
            ),
            final(self).id == old(self).id,
    {
        let state = self.state_store.get();
        if !is_commit_command_allowed(state) {
            return Err(ResourceManagerClientError::StateError(state));
        }
        self.state_store.save(ResourceManagerState::COMMITTED);
        Ok(())
    }

    /// Succeeds and persists ABORTED exactly from {WORKING, ABORTED,
    /// PREPARED}; from COMMITTED it fails carrying that state and changes
    /// nothing.
    fn abort(&mut self) -> (r: Result<(), ResourceManagerClientError>)
        ensures
            r is Ok == client_abort_step(old(self).state_spec()).0,
            final(self).state_spec() == client_abort_step(old(self).state_spec()).1,
            r matches Err(e) ==> e == ResourceManagerClientError::StateError(
                old(self).state_spec(),
            ),
            final(self).id == old(self).id,
    {
        let state = self.state_store.get();
        if !is_abort_command_allowed(state) {
            return Err(ResourceManagerClientError::StateError(state));
        }
        self.state_store.save(ResourceManagerState::ABORTED);
        Ok(())
    }
}

} // verus!
