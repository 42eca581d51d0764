use overcooked::two_phase_commit::model::resource_manager::simple_resource_manager::SimpleResourceManager;
use overcooked::two_phase_commit::model::resource_manager::ResourceManagerClient;
use overcooked::two_phase_commit::model::resource_manager::ResourceManagerState::{
    self, ABORTED, COMMITTED, PREPARED, WORKING,
};
use overcooked::two_phase_commit::model::resource_manager::Id;
use overcooked::two_phase_commit::model::transaction_manager::simple_transaction_manager::SimpleTransactionManager;
use overcooked::two_phase_commit::model::transaction_manager::TransactionManagerClient;
use overcooked::two_phase_commit::model_verification::in_memory_resource_manager_client::InMemoryResourceManagerClient;
use overcooked::two_phase_commit::model_verification::in_memory_resource_manager_state_store::InMemoryResourceManagerStateStore;
use overcooked::two_phase_commit::model_verification::in_memory_transaction_manager_client::InMemoryTransactionManagerClient;

fn rm_1_id() -> Id {
    Id("rm_1".to_string())
}

fn rm_2_id() -> Id {
    Id("rm_2".to_string())
}

fn store(state: ResourceManagerState) -> InMemoryResourceManagerStateStore {
    InMemoryResourceManagerStateStore { state }
}

enum ParticipantAction {
    Prepare,
    Abort,
}

enum CoordinatorAction {
    Commit,
    Abort,
}

#[test]
fn simple_resource_manager_works() {
    //   current state, action,  success, end state
    let cases = [
        (WORKING, ParticipantAction::Abort, true, ABORTED),
        (WORKING, ParticipantAction::Prepare, true, PREPARED),
        (PREPARED, ParticipantAction::Abort, false, PREPARED),
        (PREPARED, ParticipantAction::Prepare, true, PREPARED),
        (COMMITTED, ParticipantAction::Abort, false, COMMITTED),
        (COMMITTED, ParticipantAction::Prepare, false, COMMITTED),
        (ABORTED, ParticipantAction::Abort, false, ABORTED),
        (ABORTED, ParticipantAction::Prepare, false, ABORTED),
    ];

    for (current_state, action, success, end_state) in cases {
        if !success {
            assert_eq!(current_state, end_state);
        }

        let mut transaction_manager_client =
            InMemoryTransactionManagerClient::new(vec![(rm_1_id(), current_state)]);
        let mut resource_manager = SimpleResourceManager {
            id: rm_1_id(),
            state_store: store(current_state),
        };

        let result = match action {
            ParticipantAction::Prepare => resource_manager.prepare(&mut transaction_manager_client),
            ParticipantAction::Abort => resource_manager.abort(&mut transaction_manager_client),
        };

        assert_eq!(result.is_ok(), success);
        assert_eq!(resource_manager.state_store.state, end_state);
    }
}

#[test]
fn in_memory_resource_manager_client_works() {
    //   current state, action,  success, end state
    let cases = [
        (WORKING, CoordinatorAction::Abort, true, ABORTED),
        (WORKING, CoordinatorAction::Commit, false, WORKING),
        (PREPARED, CoordinatorAction::Abort, true, ABORTED),
        (PREPARED, CoordinatorAction::Commit, true, COMMITTED),
        (COMMITTED, CoordinatorAction::Abort, false, COMMITTED),
        (COMMITTED, CoordinatorAction::Commit, true, COMMITTED),
        (ABORTED, CoordinatorAction::Abort, true, ABORTED),
        (ABORTED, CoordinatorAction::Commit, false, ABORTED),
    ];

    for (current_state, action, success, end_state) in cases {
        if !success {
            assert_eq!(current_state, end_state);
        }

        let mut resource_manager = InMemoryResourceManagerClient {
            id: rm_1_id(),
            state_store: store(current_state),
        };

        let result = match action {
            CoordinatorAction::Commit => resource_manager.commit(),
            CoordinatorAction::Abort => resource_manager.abort(),
        };

        assert_eq!(result.is_ok(), success);
        assert_eq!(resource_manager.state_store.state, end_state);
    }
}

#[test]
fn simple_transaction_manager_works() {
    //  |<- Current States ->|                  |<- Expected States ->|
    //   RM1,       RM2,       action_on_RM1, success, RM1,       RM2
    let cases = [
        (ABORTED, ABORTED, CoordinatorAction::Commit, false, ABORTED, ABORTED),
        (ABORTED, ABORTED, CoordinatorAction::Abort, true, ABORTED, ABORTED),
        (ABORTED, COMMITTED, CoordinatorAction::Commit, false, ABORTED, COMMITTED),
        (ABORTED, COMMITTED, CoordinatorAction::Abort, false, ABORTED, COMMITTED),
        (ABORTED, PREPARED, CoordinatorAction::Commit, false, ABORTED, PREPARED),
        (ABORTED, PREPARED, CoordinatorAction::Abort, true, ABORTED, PREPARED),
        (ABORTED, WORKING, CoordinatorAction::Commit, false, ABORTED, WORKING),
        (ABORTED, WORKING, CoordinatorAction::Abort, true, ABORTED, WORKING),
        (COMMITTED, ABORTED, CoordinatorAction::Commit, false, COMMITTED, ABORTED),
        (COMMITTED, ABORTED, CoordinatorAction::Abort, false, COMMITTED, ABORTED),
        (COMMITTED, COMMITTED, CoordinatorAction::Commit, true, COMMITTED, COMMITTED),
        (COMMITTED, COMMITTED, CoordinatorAction::Abort, false, COMMITTED, COMMITTED),
        (COMMITTED, PREPARED, CoordinatorAction::Commit, true, COMMITTED, PREPARED),
        (COMMITTED, PREPARED, CoordinatorAction::Abort, false, COMMITTED, PREPARED),
        (COMMITTED, WORKING, CoordinatorAction::Commit, false, COMMITTED, WORKING),
        (COMMITTED, WORKING, CoordinatorAction::Abort, false, COMMITTED, WORKING),
        (PREPARED, ABORTED, CoordinatorAction::Commit, false, PREPARED, ABORTED),
        (PREPARED, ABORTED, CoordinatorAction::Abort, true, ABORTED, ABORTED),
        (PREPARED, COMMITTED, CoordinatorAction::Commit, true, COMMITTED, COMMITTED),
        (PREPARED, COMMITTED, CoordinatorAction::Abort, false, PREPARED, COMMITTED),
        (PREPARED, PREPARED, CoordinatorAction::Commit, true, COMMITTED, PREPARED),
        (PREPARED, PREPARED, CoordinatorAction::Abort, true, ABORTED, PREPARED),
        (PREPARED, WORKING, CoordinatorAction::Commit, false, PREPARED, WORKING),
        (PREPARED, WORKING, CoordinatorAction::Abort, true, ABORTED, WORKING),
        (WORKING, ABORTED, CoordinatorAction::Commit, false, WORKING, ABORTED),
        (WORKING, ABORTED, CoordinatorAction::Abort, true, ABORTED, ABORTED),
        (WORKING, COMMITTED, CoordinatorAction::Commit, false, WORKING, COMMITTED),
        (WORKING, COMMITTED, CoordinatorAction::Abort, false, WORKING, COMMITTED),
        (WORKING, PREPARED, CoordinatorAction::Commit, false, WORKING, PREPARED),
        (WORKING, PREPARED, CoordinatorAction::Abort, true, ABORTED, PREPARED),
        (WORKING, WORKING, CoordinatorAction::Commit, false, WORKING, WORKING),
        (WORKING, WORKING, CoordinatorAction::Abort, true, ABORTED, WORKING),
    ];

    for (rm_1_state, rm_2_state, action, success, expected_rm_1_state, expected_rm_2_state) in cases
    {
        if !success {
            assert_eq!(rm_1_state, expected_rm_1_state);
            assert_eq!(rm_2_state, expected_rm_2_state);
        }

        let mut transaction_manager = SimpleTransactionManager {
            resource_manager_states: vec![(rm_1_id(), rm_1_state), (rm_2_id(), rm_2_state)],
        };
        let mut resource_manager_1_client = InMemoryResourceManagerClient {
            id: rm_1_id(),
            state_store: store(rm_1_state),
        };

        let result = match action {
            CoordinatorAction::Abort => transaction_manager.abort(&mut resource_manager_1_client),
            CoordinatorAction::Commit => transaction_manager.commit(&mut resource_manager_1_client),
        };

        assert_eq!(result.is_ok(), success);
        assert_eq!(
            transaction_manager.resource_manager_states,
            vec![
                (rm_1_id(), expected_rm_1_state),
                (rm_2_id(), expected_rm_2_state),
            ],
        );
    }
}

#[test]
fn in_memory_transaction_manager_client_works() {
    //  |<- Current States ->|                   |<- Expected States ->|
    //   RM1,       RM2,       action_on_RM1,  success, RM1,      RM2
    let cases = [
        (ABORTED, ABORTED, ParticipantAction::Prepare, false, ABORTED, ABORTED),
        (ABORTED, ABORTED, ParticipantAction::Abort, true, ABORTED, ABORTED),
        (ABORTED, COMMITTED, ParticipantAction::Prepare, false, ABORTED, COMMITTED),
        (ABORTED, COMMITTED, ParticipantAction::Abort, false, ABORTED, COMMITTED),
        (ABORTED, PREPARED, ParticipantAction::Prepare, false, ABORTED, PREPARED),
        (ABORTED, PREPARED, ParticipantAction::Abort, true, ABORTED, PREPARED),
        (ABORTED, WORKING, ParticipantAction::Prepare, false, ABORTED, WORKING),
        (ABORTED, WORKING, ParticipantAction::Abort, true, ABORTED, WORKING),
        (COMMITTED, ABORTED, ParticipantAction::Prepare, false, COMMITTED, ABORTED),
        (COMMITTED, ABORTED, ParticipantAction::Abort, false, COMMITTED, ABORTED),
        (COMMITTED, COMMITTED, ParticipantAction::Prepare, false, COMMITTED, COMMITTED),
        (COMMITTED, COMMITTED, ParticipantAction::Abort, false, COMMITTED, COMMITTED),
        (COMMITTED, PREPARED, ParticipantAction::Prepare, false, COMMITTED, PREPARED),
        (COMMITTED, PREPARED, ParticipantAction::Abort, false, COMMITTED, PREPARED),
        (COMMITTED, WORKING, ParticipantAction::Prepare, false, COMMITTED, WORKING),
        (COMMITTED, WORKING, ParticipantAction::Abort, false, COMMITTED, WORKING),
        (PREPARED, ABORTED, ParticipantAction::Prepare, true, PREPARED, ABORTED),
        (PREPARED, ABORTED, ParticipantAction::Abort, false, PREPARED, ABORTED),
        (PREPARED, COMMITTED, ParticipantAction::Prepare, false, PREPARED, COMMITTED),
        (PREPARED, COMMITTED, ParticipantAction::Abort, false, PREPARED, COMMITTED),
        (PREPARED, PREPARED, ParticipantAction::Prepare, true, PREPARED, PREPARED),
        (PREPARED, PREPARED, ParticipantAction::Abort, false, PREPARED, PREPARED),
        (PREPARED, WORKING, ParticipantAction::Prepare, true, PREPARED, WORKING),
        (PREPARED, WORKING, ParticipantAction::Abort, false, PREPARED, WORKING),
        (WORKING, ABORTED, ParticipantAction::Prepare, true, PREPARED, ABORTED),
        (WORKING, ABORTED, ParticipantAction::Abort, true, ABORTED, ABORTED),
        (WORKING, COMMITTED, ParticipantAction::Prepare, false, WORKING, COMMITTED),
        (WORKING, COMMITTED, ParticipantAction::Abort, false, WORKING, COMMITTED),
        (WORKING, PREPARED, ParticipantAction::Prepare, true, PREPARED, PREPARED),
        (WORKING, PREPARED, ParticipantAction::Abort, true, ABORTED, PREPARED),
        (WORKING, WORKING, ParticipantAction::Prepare, true, PREPARED, WORKING),
        (WORKING, WORKING, ParticipantAction::Abort, true, ABORTED, WORKING),
    ];

    for (rm_1_state, rm_2_state, action, success, expected_rm_1_state, expected_rm_2_state) in cases
    {
        if !success {
            assert_eq!(rm_1_state, expected_rm_1_state);
            assert_eq!(rm_2_state, expected_rm_2_state);
        }

        let mut client = InMemoryTransactionManagerClient::new(vec![
            (rm_1_id(), rm_1_state),
            (rm_2_id(), rm_2_state),
        ]);

        let result = match action {
            ParticipantAction::Abort => client.abort(&rm_1_id()),
            ParticipantAction::Prepare => client.prepare(&rm_1_id()),
        };

        assert_eq!(result.is_ok(), success);
        assert_eq!(
            *client.states(),
            vec![
                (rm_1_id(), expected_rm_1_state),
                (rm_2_id(), expected_rm_2_state),
            ],
        );
    }
}
