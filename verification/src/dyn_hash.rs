//! Hashing for states of possibly different concrete types, through their
//! erased forms.

use vstd::prelude::*;

use crate::erased::{Erasable, ErasedState};

verus! {

/// Folds bytes into an accumulator, multiply-and-add with wrapping.
pub open spec fn fold_hash(acc: u64, values: Seq<u8>) -> u64
    decreases values.len(),
{
    if values.len() == 0 {
        acc
    } else {
        fold_hash(
            vstd::wrapping::u64_specs::wrapping_add(
                vstd::wrapping::u64_specs::wrapping_mul(acc, 31),
                values[0] as u64,
            ),
            values.skip(1),
        )
    }
}

/// The hash of an erased state: its type tag folded with its encoded fields.
pub open spec fn erased_hash_spec(e: (u64, Seq<u8>)) -> u64 {
    fold_hash(e.0, e.1)
}

/// Runtime hash of an erased state, as `erased_hash_spec`.
pub fn erased_hash(e: &ErasedState) -> (r: u64)
    ensures
        r == erased_hash_spec(e@),
{
    let mut acc: u64 = e.type_tag;
    let mut i: usize = 0;
    proof {
        assert(e.values@.skip(0) =~= e.values@);
    }
    while i < e.values.len()
        invariant
            i <= e.values@.len(),
            erased_hash_spec(e@) == fold_hash(acc, e.values@.skip(i as int)),
        decreases e.values@.len() - i,
    {
        proof {
            assert(e.values@.skip(i as int).skip(1) =~= e.values@.skip(i + 1));
        }
        acc = acc.wrapping_mul(31).wrapping_add(e.values[i] as u64);
        i += 1;
    }
    acc
}

/// A hash value computed from a state's erased form alone, so that states of
/// different concrete types can be hashed side by side.
pub trait DynHash: Erasable {
    fn dyn_hash(&self) -> (r: u64)
        ensures
            r == erased_hash_spec((self.tag_spec(), self.values_spec())),
    ;
}

impl<T: Erasable> DynHash for T {
    fn dyn_hash(&self) -> (r: u64) {
        erased_hash(&self.as_erased())
    }
}

} // verus!
