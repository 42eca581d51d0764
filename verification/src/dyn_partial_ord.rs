//! Partial ordering between states of possibly different concrete types,
//! through their erased forms.

use vstd::prelude::*;

use crate::erased::{erased_partial_cmp, erased_partial_cmp_spec, Erasable, ErasedState};

verus! {

/// Partial comparison against an erased state: states of different concrete
/// types are incomparable, states of one type compare by their encoded
/// fields.
pub trait DynPartialOrd: Erasable {
    fn dyn_partial_cmp(&self, other: &ErasedState) -> (r: Option<core::cmp::Ordering>)
        ensures
            r == erased_partial_cmp_spec((self.tag_spec(), self.values_spec()), other@),
    ;
}

impl<T: Erasable> DynPartialOrd for T {
    fn dyn_partial_cmp(&self, other: &ErasedState) -> (r: Option<core::cmp::Ordering>) {
        erased_partial_cmp(&self.as_erased(), other)
    }
}

} // verus!
