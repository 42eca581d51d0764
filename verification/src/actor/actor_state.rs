//! What it takes to be an actor's state.

use vstd::prelude::*;

use crate::dyn_hash::DynHash;
use crate::dyn_ord::DynOrd;
use crate::dyn_partial_eq::DynPartialEq;
use crate::dyn_partial_ord::DynPartialOrd;

verus! {

/// The state of an actor in a system that consists of multiple actors:
/// comparable and hashable against the states of every other actor through
/// its erased form.
pub trait ActorState: DynPartialEq + DynPartialOrd + DynOrd + DynHash {}

/// A totally ordered state, while the erased comparisons settle in.
pub trait Temp: Ord {}

} // verus!
