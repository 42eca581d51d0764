//! The participant actor: reads its own state through the store capability,
//! gates the operation, notifies the coordinator through the channel
//! capability, and only on success persists the new state.

use vstd::prelude::*;

use crate::two_phase_commit::model::resource_manager::{
    is_prepare_allowed, is_self_abort_allowed, prepare_allowed, self_abort_allowed, Id,
    ResourceManagerError, ResourceManagerState, ResourceManagerStateStore,
};
use crate::two_phase_commit::model::transaction_manager::{
    channel_abort_allowed, channel_prepare_allowed, commit_has_started, TransactionManagerClient,
};

verus! {

/// A participant actor: owns its identity and a handle to its state store.
/// Its true state lives exclusively behind the store; the entity itself is
/// stateless except for that handle.
pub struct SimpleResourceManager<S: ResourceManagerStateStore> {
    pub id: Id,
    pub state_store: S,
}

impl<S: ResourceManagerStateStore> SimpleResourceManager<S> {
    /// Announces readiness to commit. Fails with the offending state when the
    /// participant is outside {WORKING, PREPARED}; otherwise notifies the
    /// coordinator and, only once that call has succeeded, persists PREPARED.
    /// A coordination failure is surfaced unchanged and nothing is persisted.
    pub fn prepare<T: TransactionManagerClient>(&mut self, transaction_manager: &mut T) -> (r:
        Result<(), ResourceManagerError>)
        ensures
            final(self).id == old(self).id,
            !prepare_allowed(old(self).state_store.state_spec()) ==> ({
                &&& r == Err::<(), ResourceManagerError>(
                    ResourceManagerError::StateError(old(self).state_store.state_spec()),
                )
                &&& *final(self) == *old(self)
                &&& *final(transaction_manager) == *old(transaction_manager)
            }),
            prepare_allowed(old(self).state_store.state_spec()) ==> match r {
                Ok(()) => {
                    &&& !commit_has_started(old(transaction_manager).bookkeeping())
                    &&& old(transaction_manager).bookkeeping().dom().contains(old(self).id@)
                    &&& channel_prepare_allowed(
                        old(transaction_manager).bookkeeping()[old(self).id@],
                    )
                    &&& final(transaction_manager).bookkeeping() == old(transaction_manager).bookkeeping().insert(old(self).id@, ResourceManagerState::PREPARED)
                    &&& final(self).state_store.state_spec() == ResourceManagerState::PREPARED
                },
                Err(e) => {
                    &&& e matches ResourceManagerError::ClientError(_)
                    &&& *final(self) == *old(self)
                    &&& final(transaction_manager).bookkeeping() == old(transaction_manager).bookkeeping()
                },
            },
    {
        let state = self.state_store.get();
        if !is_prepare_allowed(state) {
            return Err(ResourceManagerError::StateError(state));
        }
        match transaction_manager.prepare(&self.id) {
            Ok(()) => {
                self.state_store.save(ResourceManagerState::PREPARED);
                Ok(())
            },
            Err(e) => Err(ResourceManagerError::from(e)),
        }
    }

    /// Aborts unilaterally. Deliberately more conservative than the remote
    /// abort command: only allowed from WORKING, so the participant never
    /// reverses a state the coordinator may already know about. Otherwise
    /// mirrors `prepare`, persisting ABORTED only after the coordinator has
    /// acknowledged.
    pub fn abort<T: TransactionManagerClient>(&mut self, transaction_manager: &mut T) -> (r:
        Result<(), ResourceManagerError>)
        ensures
            final(self).id == old(self).id,
            !self_abort_allowed(old(self).state_store.state_spec()) ==> ({
                &&& r == Err::<(), ResourceManagerError>(
                    ResourceManagerError::StateError(old(self).state_store.state_spec()),
                )
                &&& *final(self) == *old(self)
                &&& *final(transaction_manager) == *old(transaction_manager)
            }),
            self_abort_allowed(old(self).state_store.state_spec()) ==> match r {
                Ok(()) => {
                    &&& !commit_has_started(old(transaction_manager).bookkeeping())
                    &&& old(transaction_manager).bookkeeping().dom().contains(old(self).id@)
                    &&& channel_abort_allowed(
                        old(transaction_manager).bookkeeping()[old(self).id@],
                    )
                    &&& final(transaction_manager).bookkeeping() == old(transaction_manager).bookkeeping().insert(old(self).id@, ResourceManagerState::ABORTED)
                    &&& final(self).state_store.state_spec() == ResourceManagerState::ABORTED
                },
                Err(e) => {
                    &&& e matches ResourceManagerError::ClientError(_)
                    &&& *final(self) == *old(self)
                    &&& final(transaction_manager).bookkeeping() == old(transaction_manager).bookkeeping()
                },
            },
    {
        let state = self.state_store.get();
        if !is_self_abort_allowed(state) {
            return Err(ResourceManagerError::StateError(state));
        }
        match transaction_manager.abort(&self.id) {
            Ok(()) => {
                self.state_store.save(ResourceManagerState::ABORTED);
                Ok(())
            },
            Err(e) => Err(ResourceManagerError::from(e)),
        }
    }
}

} // verus!
