//! The global states reached while exploring the modelled system.

use vstd::prelude::*;

use crate::global_state::GlobalState;

verus! {

/// The set of global states an exploration has visited.
pub struct ExecutionContext {
    pub global_states: Vec<GlobalState>,
}

} // verus!
