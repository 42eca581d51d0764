//! The participant side of the protocol: the participant state vocabulary,
//! the identity of a resource manager, the state-store and remote-control
//! capability interfaces, and the per-operation state gates.

use vstd::prelude::*;

use crate::two_phase_commit::model::transaction_manager::TransactionManagerClientError;

pub mod simple_resource_manager;

verus! {

/// Identity of one resource manager: an opaque token, stable for the lifetime
/// of a transaction, used as the key in all coordinator bookkeeping.
#[derive(Debug, Eq, Hash)]
pub struct Id(pub String);

impl View for Id {
    type V = Seq<char>;

    open spec fn view(&self) -> Seq<char> {
        self.0@
    }
}

impl Clone for Id {
    fn clone(&self) -> (res: Self)
        ensures
            res == *self,
    {
        Id(self.0.clone())
    }
}

impl PartialEq for Id {
    fn eq(&self, other: &Self) -> (r: bool) {
        self.0 == other.0
    }
}

impl vstd::std_specs::cmp::PartialEqSpecImpl for Id {
    open spec fn obeys_eq_spec() -> bool {
        true
    }

    open spec fn eq_spec(&self, other: &Self) -> bool {
        self@ == other@
    }
}

/// One resource manager's progress through the transaction.
///
/// WORKING is the initial state of every participant; COMMITTED and ABORTED
/// are terminal: no operation ever transitions out of them.
#[derive(Debug, Clone, Copy, PartialEq, Eq, Hash, Structural)]
pub enum ResourceManagerState {
    WORKING,
    PREPARED,
    COMMITTED,
    ABORTED,
}

/// States from which a participant may announce `prepare` to the coordinator.
pub open spec fn prepare_allowed(state: ResourceManagerState) -> bool {
    state == ResourceManagerState::WORKING || state == ResourceManagerState::PREPARED
}

/// States from which a participant may abort unilaterally. Deliberately more
/// conservative than the remote-command abort: a participant will not reverse
/// a state the coordinator may already know about.
pub open spec fn self_abort_allowed(state: ResourceManagerState) -> bool {
    state == ResourceManagerState::WORKING
}

/// States in which the remote `commit` command is accepted; idempotent at
/// COMMITTED.
pub open spec fn commit_command_allowed(state: ResourceManagerState) -> bool {
    state == ResourceManagerState::COMMITTED || state == ResourceManagerState::PREPARED
}

/// States in which the remote `abort` command is accepted; idempotent at
/// ABORTED.
pub open spec fn abort_command_allowed(state: ResourceManagerState) -> bool {
    state == ResourceManagerState::WORKING || state == ResourceManagerState::ABORTED
        || state == ResourceManagerState::PREPARED
}

/// Runtime check of `prepare_allowed`.
pub fn is_prepare_allowed(state: ResourceManagerState) -> (b: bool)
    ensures
        b == prepare_allowed(state),
{
    state == ResourceManagerState::WORKING || state == ResourceManagerState::PREPARED
}

/// Runtime check of `self_abort_allowed`.
pub fn is_self_abort_allowed(state: ResourceManagerState) -> (b: bool)
    ensures
        b == self_abort_allowed(state),
{
    state == ResourceManagerState::WORKING
}

/// Runtime check of `commit_command_allowed`.
pub fn is_commit_command_allowed(state: ResourceManagerState) -> (b: bool)
    ensures
        b == commit_command_allowed(state),
{
    state == ResourceManagerState::COMMITTED || state == ResourceManagerState::PREPARED
}

/// Runtime check of `abort_command_allowed`.
pub fn is_abort_command_allowed(state: ResourceManagerState) -> (b: bool)
    ensures
        b == abort_command_allowed(state),
{
    state == ResourceManagerState::WORKING || state == ResourceManagerState::ABORTED
        || state == ResourceManagerState::PREPARED
}

/// An operation was attempted while the participant, or the coordinator's view
/// of it, was in a state outside the operation's allow-list, or a coordinating
/// call failed; the offending state or the coordination failure is carried.
#[derive(Debug, Clone, PartialEq, Eq)]
pub enum ResourceManagerError {
    /// The participant's own state forbids the operation.
    StateError(ResourceManagerState),
    /// The coordination channel rejected the operation; surfaced unchanged.
    ClientError(TransactionManagerClientError),
}

impl From<TransactionManagerClientError> for ResourceManagerError {
    fn from(value: TransactionManagerClientError) -> (r: Self) {
        ResourceManagerError::ClientError(value)
    }
}

impl vstd::std_specs::convert::FromSpecImpl<TransactionManagerClientError> for ResourceManagerError {
    open spec fn obeys_from_spec() -> bool {
        true
    }

    open spec fn from_spec(value: TransactionManagerClientError) -> Self {
        ResourceManagerError::ClientError(value)
    }
}

/// A remote command on a participant was rejected, or the participant's
/// identity was asked for before it was set.
#[derive(Debug, Clone, Copy, PartialEq, Eq, Structural)]
pub enum ResourceManagerClientError {
    /// The participant's state forbids the commanded transition.
    StateError(ResourceManagerState),
    /// The client has no identity to report.
    IdNotSet,
}

/// Capability interface to a participant's own durable state: get and save,
/// with last-write-wins visibility to subsequent gets.
pub trait ResourceManagerStateStore {
    /// The state the store currently holds.
    spec fn state_spec(&self) -> ResourceManagerState;

    fn get(&self) -> (state: ResourceManagerState)
        ensures
            state == self.state_spec(),
    ;

    fn save(&mut self, state: ResourceManagerState)
        ensures
            final(self).state_spec() == state,
    ;
}

/// The remote-control surface of a participant, as seen by the coordinator:
/// get its identity, command commit, command abort.
///
/// The contracts are the participant's legal-transition rules: a command only
/// succeeds from the states its gate allows, a failed command has no effect on
/// the participant's state, and no command changes the identity.
pub trait ResourceManagerClient {
    /// The identity this client reports, if one is set.
    spec fn id_spec(&self) -> Option<Seq<char>>;

    /// The true state of the participant behind this client.
    spec fn state_spec(&self) -> ResourceManagerState;

    fn get_id(&self) -> (r: Result<Id, ResourceManagerClientError>)
        ensures
            r is Ok <==> self.id_spec() is Some,
            r matches Ok(id) ==> self.id_spec() == Some(id@),
    ;

    fn commit(&mut self) -> (r: Result<(), ResourceManagerClientError>)
        ensures
            r is Ok ==> commit_command_allowed(old(self).state_spec()),
            r is Ok ==> final(self).state_spec() == ResourceManagerState::COMMITTED,
            r is Err ==> final(self).state_spec() == old(self).state_spec(),
            final(self).id_spec() == old(self).id_spec(),
    ;

    fn abort(&mut self) -> (r: Result<(), ResourceManagerClientError>)
        ensures
            r is Ok ==> abort_command_allowed(old(self).state_spec()),
            r is Ok ==> final(self).state_spec() == ResourceManagerState::ABORTED,
            r is Err ==> final(self).state_spec() == old(self).state_spec(),
            final(self).id_spec() == old(self).id_spec(),
    ;
}

} // verus!
