//! Wiring from actor identities to the extractors and factories that turn
//! actors into states and back.

use vstd::prelude::*;

use crate::actor::actor_factory::ActorFactory;
use crate::actor::actor_state_extractor::ActorStateExtractor;
use crate::actor::Id;

verus! {

/// Per-actor wiring for state extraction and restoration.
pub struct ActorStateTransformerConfig<E: ActorStateExtractor, F: ActorFactory> {
    pub actor_state_extractors: Vec<(Id, E)>,
    pub actor_factories: Vec<(Id, F)>,
}

} // verus!
