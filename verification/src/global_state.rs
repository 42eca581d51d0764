//! A snapshot of the whole modelled system: every actor's local state.

use vstd::prelude::*;

use crate::actor::local_state::LocalState;
use crate::actor::Id;

verus! {

/// One snapshot of all actors' states.
#[derive(Debug, Clone, PartialEq, Eq, Hash)]
pub struct GlobalState {
    pub id: u64,
    pub local_states: Vec<(Id, LocalState)>,
}

impl GlobalState {
    /// Captures a snapshot holding a copy of every given local state.
    pub fn new(local_states: &Vec<(Id, LocalState)>) -> (r: GlobalState)
        ensures
            r.id == 0,
            r.local_states@.len() == local_states@.len(),
            forall|i: int|
                0 <= i < local_states@.len() ==> (#[trigger] r.local_states@[i]).0
                    == local_states@[i].0 && r.local_states@[i].1@ == local_states@[i].1@,
    {
        let mut copied: Vec<(Id, LocalState)> = Vec::new();
        let mut i: usize = 0;
        while i < local_states.len()
            invariant
                i <= local_states@.len(),
                copied@.len() == i,
                forall|j: int|
                    0 <= j < i ==> (#[trigger] copied@[j]).0 == local_states@[j].0
                        && copied@[j].1@ == local_states@[j].1@,
            decreases local_states@.len() - i,
        {
            let entry = &local_states[i];
            copied.push((entry.0.clone(), entry.1.clone()));
            i += 1;
        }
        GlobalState { id: 0, local_states: copied }
    }
}

} // verus!
