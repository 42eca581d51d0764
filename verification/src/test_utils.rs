//! Small actors and states used by the modelling tests.

pub mod test_actor_states;
