//! The coordination channel, driven directly against an owned bookkeeping
//! table: a participant's prepare and abort notifications with the
//! commit-has-started guard, the unknown-identity guard and the state gates.

use vstd::prelude::*;

use crate::two_phase_commit::model::resource_manager::{Id, ResourceManagerState};
use vstd::pervasive::unreached;

use crate::two_phase_commit::model::transaction_manager::simple_transaction_manager::contains_state;
use crate::two_phase_commit::model::transaction_manager::{
    any_committed, channel_abort_allowed, channel_prepare_allowed, commit_has_started,
    distinct_ids, find_index, lemma_commit_has_started_entries, lemma_states_map_dom,
    lemma_states_map_entry, lemma_states_map_update, states_map, update_entry,
    TransactionManagerClient,
    TransactionManagerClientError,
};

verus! {

/// A deterministic coordination channel: owns the coordinator bookkeeping it
/// guards. Each tracked identity occurs exactly once in the table.
#[derive(Debug)]
pub struct InMemoryTransactionManagerClient {
    resource_manager_states: Vec<(Id, ResourceManagerState)>,
}

impl InMemoryTransactionManagerClient {
    #[verifier::type_invariant]
    spec fn wf(&self) -> bool {
        distinct_ids(self.resource_manager_states@)
    }

    /// Builds a channel over the given bookkeeping entries; each identity may
    /// be named once.
    pub fn new(resource_manager_states: Vec<(Id, ResourceManagerState)>) -> (r: Self)
        requires
            distinct_ids(resource_manager_states@),
        ensures
            r.bookkeeping() == states_map(resource_manager_states@),
    {
        InMemoryTransactionManagerClient { resource_manager_states }
    }

    /// The bookkeeping entries, in table order.
    pub fn states(&self) -> (r: &Vec<(Id, ResourceManagerState)>)
        ensures
            distinct_ids(r@),
            states_map(r@) == self.bookkeeping(),
    {
        proof {
            use_type_invariant(self);
        }
        &self.resource_manager_states
    }

    /// Fails when a commit has started, when the identity is unknown, and
    /// when the identity's bookkeeping state is outside the allow-list, in
    /// that order of precedence; succeeds otherwise, changing nothing either
    /// way.
    fn validate_state(&self, id: &Id, allowed_states: &[ResourceManagerState]) -> (r: Result<
        (),
        TransactionManagerClientError,
    >)
        requires
            self.wf(),
        ensures
            r is Ok <==> !commit_has_started(self.bookkeeping()) && self.bookkeeping().dom()
                .contains(id@) && allowed_states@.contains(self.bookkeeping()[id@]),
            commit_has_started(self.bookkeeping()) ==> r == Err::<
                (),
                TransactionManagerClientError,
            >(TransactionManagerClientError::CommitHasStarted),
            !commit_has_started(self.bookkeeping()) && !self.bookkeeping().dom().contains(id@)
                ==> r == Err::<(), TransactionManagerClientError>(
                TransactionManagerClientError::UnknownId(*id),
            ),
            !commit_has_started(self.bookkeeping()) && self.bookkeeping().dom().contains(id@)
                && !allowed_states@.contains(self.bookkeeping()[id@]) ==> r == Err::<
                (),
                TransactionManagerClientError,
            >(
                TransactionManagerClientError::StateError {
                    id: *id,
                    state: self.bookkeeping()[id@],
                },
            ),
    {
        proof {
            lemma_commit_has_started_entries(self.resource_manager_states@);
        }
        if any_committed(&self.resource_manager_states) {
            return Err(TransactionManagerClientError::CommitHasStarted);
        }
        let state = match find_index(&self.resource_manager_states, id) {
            None => {
                proof {
                    lemma_states_map_dom(self.resource_manager_states@, id@);
                }
                return Err(TransactionManagerClientError::UnknownId(id.clone()));
            },
            Some(i) => {
                proof {
                    lemma_states_map_entry(self.resource_manager_states@, i as int);
                }
                self.resource_manager_states[i].1
            },
        };
        if !contains_state(allowed_states, state) {
            return Err(TransactionManagerClientError::StateError { id: id.clone(), state });
        }
        Ok(())
    }
}

impl TransactionManagerClient for InMemoryTransactionManagerClient {
    closed spec fn bookkeeping(&self) -> Map<Seq<char>, ResourceManagerState> {
        states_map(self.resource_manager_states@)
    }

    /// Records PREPARED for the identity exactly when no commit has started,
    /// the identity is tracked, and its bookkeeping state is in
    /// {WORKING, PREPARED}; fails with the offending guard otherwise.
    fn prepare(&mut self, id: &Id) -> (r: Result<(), TransactionManagerClientError>)
        ensures
            r is Ok == crate::two_phase_commit::protocol::channel_prepare_step(
                old(self).bookkeeping(),
                id@,
            ).0,
            final(self).bookkeeping() == crate::two_phase_commit::protocol::channel_prepare_step(
                old(self).bookkeeping(),
                id@,
            ).1,
            commit_has_started(old(self).bookkeeping()) ==> r == Err::<
                (),
                TransactionManagerClientError,
            >(TransactionManagerClientError::CommitHasStarted),
            !commit_has_started(old(self).bookkeeping()) && !old(self).bookkeeping().dom()
                .contains(id@) ==> r == Err::<(), TransactionManagerClientError>(
                TransactionManagerClientError::UnknownId(*id),
            ),
            !commit_has_started(old(self).bookkeeping()) && old(self).bookkeeping().dom().contains(
                id@,
            ) && !channel_prepare_allowed(old(self).bookkeeping()[id@]) ==> r == Err::<
                (),
                TransactionManagerClientError,
            >(
                TransactionManagerClientError::StateError {
                    id: *id,
                    state: old(self).bookkeeping()[id@],
                },
            ),
    {
        proof {
            use_type_invariant(&*self);
        }
        let allowed = [ResourceManagerState::WORKING, ResourceManagerState::PREPARED];
        proof {
            assert forall|s: ResourceManagerState|
                allowed@.contains(s) <==> channel_prepare_allowed(s) by {
                if channel_prepare_allowed(s) {
                    if s == ResourceManagerState::WORKING {
                        assert(allowed@[0] == s);
                    } else {
                        assert(allowed@[1] == s);
                    }
                }
            }
        }
        match self.validate_state(id, &allowed) {
            Err(e) => {
                return Err(e);
            },
            Ok(()) => {},
        }
        let i = match find_index(&self.resource_manager_states, id) {
            Some(i) => i,
            None => {
                proof {
                    lemma_states_map_dom(self.resource_manager_states@, id@);
                }
                unreached()
            },
        };
        proof {
            lemma_states_map_update(
                self.resource_manager_states@,
                i as int,
                *id,
                ResourceManagerState::PREPARED,
            );
        }
        update_entry(
            &mut self.resource_manager_states,
            i,
            id.clone(),
            ResourceManagerState::PREPARED,
        );
        Ok(())
    }

    /// Records ABORTED for the identity exactly when no commit has started,
    /// the identity is tracked, and its bookkeeping state is in
    /// {WORKING, ABORTED}; fails with the offending guard otherwise.
    fn abort(&mut self, id: &Id) -> (r: Result<(), TransactionManagerClientError>)
        ensures
            r is Ok == crate::two_phase_commit::protocol::channel_abort_step(
                old(self).bookkeeping(),
                id@,
            ).0,
            final(self).bookkeeping() == crate::two_phase_commit::protocol::channel_abort_step(
                old(self).bookkeeping(),
                id@,
            ).1,
            commit_has_started(old(self).bookkeeping()) ==> r == Err::<
                (),
                TransactionManagerClientError,
            >(TransactionManagerClientError::CommitHasStarted),
            !commit_has_started(old(self).bookkeeping()) && !old(self).bookkeeping().dom()
                .contains(id@) ==> r == Err::<(), TransactionManagerClientError>(
                TransactionManagerClientError::UnknownId(*id),
            ),
            !commit_has_started(old(self).bookkeeping()) && old(self).bookkeeping().dom().contains(
                id@,
            ) && !channel_abort_allowed(old(self).bookkeeping()[id@]) ==> r == Err::<
                (),
                TransactionManagerClientError,
            >(
                TransactionManagerClientError::StateError {
                    id: *id,
                    state: old(self).bookkeeping()[id@],
                },
            ),
    {
        proof {
            use_type_invariant(&*self);
        }
        let allowed = [ResourceManagerState::WORKING, ResourceManagerState::ABORTED];
        proof {
            assert forall|s: ResourceManagerState|
                allowed@.contains(s) <==> channel_abort_allowed(s) by {
                if channel_abort_allowed(s) {
                    if s == ResourceManagerState::WORKING {
                        assert(allowed@[0] == s);
                    } else {
                        assert(allowed@[1] == s);
                    }
                }
            }
        }
        match self.validate_state(id, &allowed) {
            Err(e) => {
                return Err(e);
            },
            Ok(()) => {},
        }
        let i = match find_index(&self.resource_manager_states, id) {
            Some(i) => i,
            None => {
                proof {
                    lemma_states_map_dom(self.resource_manager_states@, id@);
                }
                unreached()
            },
        };
        proof {
            lemma_states_map_update(
                self.resource_manager_states@,
                i as int,
                *id,
                ResourceManagerState::ABORTED,
            );
        }
        update_entry(
            &mut self.resource_manager_states,
            i,
            id.clone(),
            ResourceManagerState::ABORTED,
        );
        Ok(())
    }
}

} // verus!
