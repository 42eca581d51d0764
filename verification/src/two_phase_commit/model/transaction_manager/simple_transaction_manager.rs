//! The coordinator actor: owns per-participant bookkeeping, validates
//! transaction-wide legality before commanding a participant, and records the
//! outcome only after the remote command has succeeded.

use vstd::prelude::*;

use crate::two_phase_commit::model::resource_manager::{
    abort_command_allowed, commit_command_allowed, Id, ResourceManagerClient,
    ResourceManagerState,
};
use crate::two_phase_commit::model::transaction_manager::{
    commit_has_started, distinct_ids, lemma_commit_has_started_entries, set_state, states_map,
    TransactionManagerError,
};

verus! {

/// Every entry's state satisfies the given gate.
pub open spec fn all_allowed(
    entries: Seq<(Id, ResourceManagerState)>,
    allowed: spec_fn(ResourceManagerState) -> bool,
) -> bool {
    forall|i: int| 0 <= i < entries.len() ==> allowed((#[trigger] entries[i]).1)
}

/// Entry `i` is the first whose state fails the given gate.
pub open spec fn first_offender(
    entries: Seq<(Id, ResourceManagerState)>,
    allowed: spec_fn(ResourceManagerState) -> bool,
    i: int,
) -> bool {
    &&& 0 <= i < entries.len()
    &&& !allowed(entries[i].1)
    &&& forall|j: int| 0 <= j < i ==> allowed((#[trigger] entries[j]).1)
}

/// Once any participant is recorded COMMITTED, the coordinator's
/// transaction-wide abort precondition fails for the whole table: a started
/// commit can no longer be turned into an abort, which rules out mixed
/// commit/abort outcomes.
pub proof fn lemma_commit_started_blocks_coordinator_abort(
    entries: Seq<(Id, ResourceManagerState)>,
)
    requires
        distinct_ids(entries),
        commit_has_started(states_map(entries)),
    ensures
        !all_allowed(entries, |s: ResourceManagerState| abort_command_allowed(s)),
{
    lemma_commit_has_started_entries(entries);
    let i = choose|i: int|
        0 <= i < entries.len() && (#[trigger] entries[i]).1 == ResourceManagerState::COMMITTED;
    assert(!abort_command_allowed(entries[i].1));
}

/// Whether a slice of states holds the given state.
pub fn contains_state(allowed_states: &[ResourceManagerState], state: ResourceManagerState) -> (b:
    bool)
    ensures
        b == allowed_states@.contains(state),
{
    let mut i: usize = 0;
    while i < allowed_states.len()
        invariant
            i <= allowed_states@.len(),
            forall|j: int| 0 <= j < i ==> allowed_states@[j] != state,
        decreases allowed_states@.len() - i,
    {
        if allowed_states[i] == state {
            return true;
        }
        i += 1;
    }
    false
}

/// Checks that every tracked participant's bookkeeping state is in the given
/// allow-list; fails naming the first offending identity and its state.
pub fn validate_state(
    states: &Vec<(Id, ResourceManagerState)>,
    allowed_states: &[ResourceManagerState],
) -> (r: Result<(), TransactionManagerError>)
    ensures
        r is Ok <==> all_allowed(states@, |s: ResourceManagerState| allowed_states@.contains(s)),
        r matches Err(e) ==> exists|i: int|
            #![auto]
            first_offender(states@, |s: ResourceManagerState| allowed_states@.contains(s), i) && e
                == (TransactionManagerError::StateError {
                id: states@[i].0,
                state: states@[i].1,
            }),
{
    let mut i: usize = 0;
    while i < states.len()
        invariant
            i <= states@.len(),
            forall|j: int| 0 <= j < i ==> allowed_states@.contains((#[trigger] states@[j]).1),
        decreases states@.len() - i,
    {
        let entry = &states[i];
        if !contains_state(allowed_states, entry.1) {
            return Err(TransactionManagerError::StateError { id: entry.0.clone(), state: entry.1 });
        }
        i += 1;
    }
    Ok(())
}

/// The coordinator actor: a mapping from identity to its belief about that
/// participant's state. The bookkeeping is not the source of truth for a
/// participant's actual state; it is the coordinator's gating mechanism for
/// transaction-wide legality.
#[derive(Debug)]
pub struct SimpleTransactionManager {
    pub resource_manager_states: Vec<(Id, ResourceManagerState)>,
}

impl SimpleTransactionManager {
    /// Well-formed: each tracked identity occurs once.
    pub open spec fn wf(&self) -> bool {
        distinct_ids(self.resource_manager_states@)
    }

    /// The coordinator's belief about each participant, as a map.
    pub open spec fn bookkeeping(&self) -> Map<Seq<char>, ResourceManagerState> {
        states_map(self.resource_manager_states@)
    }

    /// Commands one participant to commit. First validates that every tracked
    /// participant is in {COMMITTED, PREPARED} (a transaction-wide
    /// precondition, not just the target's); on violation fails naming the
    /// first offending identity and state, without calling the client. On
    /// remote success records COMMITTED for the client's identity; on remote
    /// failure surfaces the error and leaves the bookkeeping unchanged.
    pub fn commit<C: ResourceManagerClient>(&mut self, resource_manager: &mut C) -> (r: Result<
        (),
        TransactionManagerError,
    >)
        requires
            old(self).wf(),
        ensures
            final(self).wf(),
            final(resource_manager).id_spec() == old(resource_manager).id_spec(),
            !all_allowed(
                old(self).resource_manager_states@,
                |s: ResourceManagerState| commit_command_allowed(s),
            ) ==> ({
                &&& exists|i: int|
                    #![auto]
                    first_offender(
                        old(self).resource_manager_states@,
                        |s: ResourceManagerState| commit_command_allowed(s),
                        i,
                    ) && r == Err::<(), TransactionManagerError>(
                        TransactionManagerError::StateError {
                            id: old(self).resource_manager_states@[i].0,
                            state: old(self).resource_manager_states@[i].1,
                        },
                    )
                &&& *final(self) == *old(self)
                &&& *final(resource_manager) == *old(resource_manager)
            }),
            all_allowed(
                old(self).resource_manager_states@,
                |s: ResourceManagerState| commit_command_allowed(s),
            ) ==> match r {
                Ok(()) => {
                    &&& commit_command_allowed(old(resource_manager).state_spec())
                    &&& final(resource_manager).state_spec() == ResourceManagerState::COMMITTED
                    &&& old(resource_manager).id_spec() matches Some(id) && final(self).bookkeeping() == old(self).bookkeeping().insert(
                        id,
                        ResourceManagerState::COMMITTED,
                    )
                },
                Err(e) => {
                    &&& e matches TransactionManagerError::ClientError(_)
                    &&& final(self).resource_manager_states@ == old(self).resource_manager_states@
                    &&& (final(resource_manager).state_spec() == old(resource_manager).state_spec() || final(resource_manager).state_spec()
                        == ResourceManagerState::COMMITTED)
                    &&& old(resource_manager).id_spec() is Some ==> final(resource_manager).state_spec() == old(resource_manager).state_spec()
                },
            },
    {
        let allowed = [ResourceManagerState::COMMITTED, ResourceManagerState::PREPARED];
        proof {
            assert forall|s: ResourceManagerState|
                allowed@.contains(s) <==> commit_command_allowed(s) by {
                if commit_command_allowed(s) {
                    if s == ResourceManagerState::COMMITTED {
                        assert(allowed@[0] == s);
                    } else {
                        assert(allowed@[1] == s);
                    }
                }
            }
        }
        match validate_state(&self.resource_manager_states, &allowed) {
            Err(e) => {
                return Err(e);
            },
            Ok(()) => {},
        }
        match resource_manager.commit() {
            Err(e) => {
                return Err(TransactionManagerError::from(e));
            },
            Ok(()) => {},
        }
        match resource_manager.get_id() {
            Err(e) => Err(TransactionManagerError::from(e)),
            Ok(id) => {
                set_state(&mut self.resource_manager_states, id, ResourceManagerState::COMMITTED);
                Ok(())
            },
        }
    }

    /// Commands one participant to abort, mirroring `commit` with the
    /// transaction-wide allow-set {WORKING, ABORTED, PREPARED}.
    pub fn abort<C: ResourceManagerClient>(&mut self, resource_manager: &mut C) -> (r: Result<
        (),
        TransactionManagerError,
    >)
        requires
            old(self).wf(),
        ensures
            final(self).wf(),
            final(resource_manager).id_spec() == old(resource_manager).id_spec(),
            !all_allowed(
                old(self).resource_manager_states@,
                |s: ResourceManagerState| abort_command_allowed(s),
            ) ==> ({
                &&& exists|i: int|
                    #![auto]
                    first_offender(
                        old(self).resource_manager_states@,
                        |s: ResourceManagerState| abort_command_allowed(s),
                        i,
                    ) && r == Err::<(), TransactionManagerError>(
                        TransactionManagerError::StateError {
                            id: old(self).resource_manager_states@[i].0,
                            state: old(self).resource_manager_states@[i].1,
                        },
                    )
                &&& *final(self) == *old(self)
                &&& *final(resource_manager) == *old(resource_manager)
            }),
            all_allowed(
                old(self).resource_manager_states@,
                |s: ResourceManagerState| abort_command_allowed(s),
            ) ==> match r {
                Ok(()) => {
                    &&& abort_command_allowed(old(resource_manager).state_spec())
                    &&& final(resource_manager).state_spec() == ResourceManagerState::ABORTED
                    &&& old(resource_manager).id_spec() matches Some(id) && final(self).bookkeeping() == old(self).bookkeeping().insert(
                        id,
                        ResourceManagerState::ABORTED,
                    )
                },
                Err(e) => {
                    &&& e matches TransactionManagerError::ClientError(_)
                    &&& final(self).resource_manager_states@ == old(self).resource_manager_states@
                    &&& (final(resource_manager).state_spec() == old(resource_manager).state_spec() || final(resource_manager).state_spec()
                        == ResourceManagerState::ABORTED)
                    &&& old(resource_manager).id_spec() is Some ==> final(resource_manager).state_spec() == old(resource_manager).state_spec()
                },
            },
    {
        let allowed = [
            ResourceManagerState::WORKING,
            ResourceManagerState::ABORTED,
            ResourceManagerState::PREPARED,
        ];
        proof {
            assert forall|s: ResourceManagerState|
                allowed@.contains(s) <==> abort_command_allowed(s) by {
                if abort_command_allowed(s) {
                    if s == ResourceManagerState::WORKING {
                        assert(allowed@[0] == s);
                    } else if s == ResourceManagerState::ABORTED {
                        assert(allowed@[1] == s);
                    } else {
                        assert(allowed@[2] == s);
                    }
                }
            }
        }
        match validate_state(&self.resource_manager_states, &allowed) {
            Err(e) => {
                return Err(e);
            },
            Ok(()) => {},
        }
        match resource_manager.abort() {
            Err(e) => {
                return Err(TransactionManagerError::from(e));
            },
            Ok(()) => {},
        }
        match resource_manager.get_id() {
            Err(e) => Err(TransactionManagerError::from(e)),
            Ok(id) => {
                set_state(&mut self.resource_manager_states, id, ResourceManagerState::ABORTED);
                Ok(())
            },
        }
    }
}

} // verus!
