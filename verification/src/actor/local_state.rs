//! One actor's state, held in erased form so that the states of different
//! actors can be stored, compared and hashed uniformly.

use core::cmp::Ordering;

use vstd::prelude::*;

use crate::erased::{
    erased_eq, erased_partial_cmp, erased_partial_cmp_spec, ErasedState,
};

verus! {

/// A snapshot of one actor's state.
#[derive(Debug, Hash, Ord)]
pub struct LocalState {
    pub actor_state: ErasedState,
}

impl View for LocalState {
    type V = (u64, Seq<u8>);

    open spec fn view(&self) -> (u64, Seq<u8>) {
        self.actor_state@
    }
}

impl Clone for LocalState {
    fn clone(&self) -> (res: Self)
        ensures
            res@ == self@,
    {
        LocalState { actor_state: self.actor_state.clone() }
    }
}

impl PartialEq for LocalState {
    fn eq(&self, other: &Self) -> (r: bool) {
        erased_eq(&self.actor_state, &other.actor_state)
    }
}

impl Eq for LocalState {

}

impl vstd::std_specs::cmp::PartialEqSpecImpl for LocalState {
    open spec fn obeys_eq_spec() -> bool {
        true
    }

    open spec fn eq_spec(&self, other: &Self) -> bool {
        self@ == other@
    }
}

impl PartialOrd for LocalState {
    fn partial_cmp(&self, other: &Self) -> (r: Option<Ordering>) {
        erased_partial_cmp(&self.actor_state, &other.actor_state)
    }
}

impl vstd::std_specs::cmp::PartialOrdSpecImpl for LocalState {
    open spec fn obeys_partial_cmp_spec() -> bool {
        true
    }

    open spec fn partial_cmp_spec(&self, other: &Self) -> Option<Ordering> {
        erased_partial_cmp_spec(self@, other@)
    }
}

} // verus!
