//! Equality between states of possibly different concrete types, through
//! their erased forms.

use vstd::prelude::*;

use crate::erased::{erased_eq, Erasable, ErasedState};

verus! {

/// Equality against an erased state: true exactly for the erased form of a
/// state of the same concrete type with the same encoded fields.
pub trait DynPartialEq: Erasable {
    fn dyn_eq(&self, other: &ErasedState) -> (r: bool)
        ensures
            r == ((self.tag_spec(), self.values_spec()) == other@),
    ;
}

impl<T: Erasable> DynPartialEq for T {
    fn dyn_eq(&self, other: &ErasedState) -> (r: bool) {
        erased_eq(&self.as_erased(), other)
    }
}

} // verus!
