//! Capturing an actor's state in erased form.

use vstd::prelude::*;

use crate::actor::ActorBase;
use crate::erased::ErasedState;

verus! {

/// Extracts an actor's current state in erased form.
pub trait ActorStateExtractor {
    fn extract<T: ActorBase>(&self, actor: Box<T>) -> ErasedState where Self: Sized;
}

} // verus!
