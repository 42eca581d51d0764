//! Restoring actors from captured state.

use vstd::prelude::*;

use crate::actor::ActorBase;
use crate::erased::ErasedState;

verus! {

/// Builds an actor back from the erased state it was captured in.
pub trait ActorFactory {
    /// The kind of actor this factory restores.
    type Actor: ActorBase;

    fn restore_from_state(actor_state: ErasedState) -> Self::Actor where Self: Sized;
}

} // verus!
