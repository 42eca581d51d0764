//! A volatile state store: one participant state in memory, last write wins.

use vstd::prelude::*;

use crate::two_phase_commit::model::resource_manager::{
    ResourceManagerState, ResourceManagerStateStore,
};

verus! {

/// In-memory backing for one participant's state.
#[derive(Debug)]
pub struct InMemoryResourceManagerStateStore {
    pub state: ResourceManagerState,
}

impl ResourceManagerStateStore for InMemoryResourceManagerStateStore {
    open spec fn state_spec(&self) -> ResourceManagerState {
        self.state
    }

    fn get(&self) -> (state: ResourceManagerState) {
        self.state
    }

    fn save(&mut self, state: ResourceManagerState) {
        self.state = state;
    }
}

} // verus!
