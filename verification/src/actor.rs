//! Actors of the modelled system and their identities.

use vstd::prelude::*;

pub mod actor_factory;
pub mod actor_state;
pub mod actor_state_extractor;
pub mod actor_state_transformer_config;
pub mod local_state;

verus! {

/// Id of an actor.
#[derive(Debug, PartialEq, Eq, Hash, PartialOrd, Ord)]
pub struct Id(pub String);

impl View for Id {
    type V = Seq<char>;

    open spec fn view(&self) -> Seq<char> {
        self.0@
    }
}

impl Clone for Id {
    fn clone(&self) -> (res: Self)
        ensures
            res == *self,
    {
        Id(self.0.clone())
    }
}

/// Something that can act in the modelled system.
pub trait ActorBase {}

} // verus!
