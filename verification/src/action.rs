//! Actions actors can take in the modelled system.

use vstd::prelude::*;

use crate::actor::ActorBase;

verus! {

/// A labelled action.
pub struct ActionDefinition<T1: ActorBase, T2: ActorBase> {
    pub label: &'static str,
    pub action: Action<T1, T2>,
}

/// An action and the actors it involves. The executable effect of an action
/// lives with the runtime that embeds the model; the model tracks who
/// performs the action and on whom.
pub enum Action<T1, T2> where T1: ActorBase, T2: ActorBase {
    /// An action the performer takes on its own.
    Intransitive { performer: Box<T1> },
    /// An action the performer takes on a receiver.
    Transitive { performer: Box<T1>, receiver: Box<T2> },
}

} // verus!
