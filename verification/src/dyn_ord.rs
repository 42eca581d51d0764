//! Total ordering between states of possibly different concrete types,
//! through their erased forms.

use vstd::prelude::*;

use crate::erased::{erased_cmp, erased_cmp_spec, Erasable, ErasedState};

verus! {

/// Total comparison against an erased state: states of one concrete type
/// compare by their encoded fields; states of different concrete types are
/// ordered by their type tags.
pub trait DynOrd: Erasable {
    fn dyn_cmp(&self, other: &ErasedState) -> (r: core::cmp::Ordering)
        ensures
            r == erased_cmp_spec((self.tag_spec(), self.values_spec()), other@),
    ;
}

impl<T: Erasable> DynOrd for T {
    fn dyn_cmp(&self, other: &ErasedState) -> (r: core::cmp::Ordering) {
        erased_cmp(&self.as_erased(), other)
    }
}

} // verus!
