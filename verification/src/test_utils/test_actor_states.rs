//! Two concrete actor states with distinct type tags, and two trivial actors.

use vstd::prelude::*;

use crate::actor::actor_state::ActorState;
use crate::actor::ActorBase;
use crate::erased::{Erasable, ErasedState};

verus! {

/// A one-byte actor state.
#[derive(Debug, Clone, PartialEq, PartialOrd, Eq, Ord, Hash, Structural)]
pub struct TestActor1State {
    pub value: u8,
}

impl Erasable for TestActor1State {
    open spec fn tag_spec(&self) -> u64 {
        1
    }

    open spec fn values_spec(&self) -> Seq<u8> {
        seq![self.value]
    }

    fn as_erased(&self) -> (e: ErasedState) {
        let mut values: Vec<u8> = Vec::new();
        values.push(self.value);
        proof {
            assert(values@ =~= seq![self.value]);
        }
        ErasedState { type_tag: 1, values }
    }
}

impl ActorState for TestActor1State {

}

/// Another one-byte actor state, of a different concrete type than
/// `TestActor1State` and so with a different type tag.
#[derive(Debug, Clone, PartialEq, PartialOrd, Eq, Ord, Hash, Structural)]
pub struct MyActorState2 {
    pub value: u8,
}

impl Erasable for MyActorState2 {
    open spec fn tag_spec(&self) -> u64 {
        2
    }

    open spec fn values_spec(&self) -> Seq<u8> {
        seq![self.value]
    }

    fn as_erased(&self) -> (e: ErasedState) {
        let mut values: Vec<u8> = Vec::new();
        values.push(self.value);
        proof {
            assert(values@ =~= seq![self.value]);
        }
        ErasedState { type_tag: 2, values }
    }
}

impl ActorState for MyActorState2 {

}

/// An actor that can act on its own and on `TestActor2`.
pub struct TestActor1;

/// An actor that only ever receives actions.
pub struct TestActor2;

impl ActorBase for TestActor1 {

}

impl ActorBase for TestActor2 {

}

impl TestActor1 {
    /// Acts on the given `TestActor2`; always succeeds.
    pub fn do_something_to_test_actor_2(&self, _other: Box<TestActor2>) -> (r: Result<
        (),
        TestActor1Error,
    >)
        ensures
            r is Ok,
    {
        Ok(())
    }

    /// Acts on its own; always succeeds.
    pub fn do_something_on_its_own(&self) -> (r: Result<(), TestActor1Error>)
        ensures
            r is Ok,
    {
        Ok(())
    }
}

/// The failure `TestActor1`'s actions report.
#[derive(Debug, Clone, Copy, PartialEq, Eq, Structural)]
pub struct TestActor1Error;

} // verus!
