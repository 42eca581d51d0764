use overcooked::actor::local_state::LocalState;
use overcooked::actor::Id;
use overcooked::erased::Erasable;
use overcooked::execution_context::ExecutionContext;
use overcooked::global_state::GlobalState;
use overcooked::test_utils::test_actor_states::TestActor1State;

#[test]
fn global_state_can_be_constructed() {
    let _ = GlobalState::new(&vec![(
        Id("some id".to_string()),
        LocalState { actor_state: TestActor1State { value: 1 }.as_erased() },
    )]);
}

#[test]
fn execution_context_can_be_constructed() {
    let _ = ExecutionContext {
        global_states: vec![GlobalState::new(&vec![(
            Id("some id".to_string()),
            LocalState { actor_state: TestActor1State { value: 1 }.as_erased() },
        )])],
    };
}

#[test]
fn global_state_copies_the_given_local_states() {
    let states = vec![(
        Id("some id".to_string()),
        LocalState { actor_state: TestActor1State { value: 1 }.as_erased() },
    )];

    let snapshot = GlobalState::new(&states);

    assert_eq!(snapshot.local_states, states);
}
