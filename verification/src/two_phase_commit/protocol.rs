//! The composite protocol state machine, written out as specification-level
//! step functions, and the protocol laws proved over them.
//!
//! One participant's true state moves only along
//! WORKING -> PREPARED -> COMMITTED, WORKING -> ABORTED and
//! PREPARED -> ABORTED; COMMITTED and ABORTED are terminal. Transaction-wide
//! safety is enforced by the coordination channel's commit-has-started guard
//! and the coordinator's all-participants precondition.

use vstd::prelude::*;

use crate::two_phase_commit::model::resource_manager::{
    abort_command_allowed, commit_command_allowed, prepare_allowed, self_abort_allowed,
    ResourceManagerState,
};
use crate::two_phase_commit::model::transaction_manager::{
    channel_abort_allowed, channel_prepare_allowed, commit_has_started,
};

verus! {

/// The legal transitions of one participant's true state.
pub open spec fn can_step(from: ResourceManagerState, to: ResourceManagerState) -> bool {
    ||| (from == ResourceManagerState::WORKING && to == ResourceManagerState::PREPARED)
    ||| (from == ResourceManagerState::WORKING && to == ResourceManagerState::ABORTED)
    ||| (from == ResourceManagerState::PREPARED && to == ResourceManagerState::ABORTED)
    ||| (from == ResourceManagerState::PREPARED && to == ResourceManagerState::COMMITTED)
}

/// The remote commit command on a participant: succeeds and moves to
/// COMMITTED exactly when the current state allows it, otherwise fails and
/// leaves the state untouched.
pub open spec fn client_commit_step(state: ResourceManagerState) -> (bool, ResourceManagerState) {
    if commit_command_allowed(state) {
        (true, ResourceManagerState::COMMITTED)
    } else {
        (false, state)
    }
}

/// The remote abort command on a participant, mirroring `client_commit_step`.
pub open spec fn client_abort_step(state: ResourceManagerState) -> (bool, ResourceManagerState) {
    if abort_command_allowed(state) {
        (true, ResourceManagerState::ABORTED)
    } else {
        (false, state)
    }
}

/// The coordination channel's prepare: rejected once a commit has started,
/// for an unknown identity, or from a bookkeeping state outside the
/// allow-list; otherwise records PREPARED.
pub open spec fn channel_prepare_step(
    states: Map<Seq<char>, ResourceManagerState>,
    id: Seq<char>,
) -> (bool, Map<Seq<char>, ResourceManagerState>) {
    if commit_has_started(states) {
        (false, states)
    } else if !states.dom().contains(id) {
        (false, states)
    } else if !channel_prepare_allowed(states[id]) {
        (false, states)
    } else {
        (true, states.insert(id, ResourceManagerState::PREPARED))
    }
}

/// The coordination channel's abort, mirroring `channel_prepare_step`.
pub open spec fn channel_abort_step(
    states: Map<Seq<char>, ResourceManagerState>,
    id: Seq<char>,
) -> (bool, Map<Seq<char>, ResourceManagerState>) {
    if commit_has_started(states) {
        (false, states)
    } else if !states.dom().contains(id) {
        (false, states)
    } else if !channel_abort_allowed(states[id]) {
        (false, states)
    } else {
        (true, states.insert(id, ResourceManagerState::ABORTED))
    }
}

/// A participant's prepare, driven through the coordination channel: gated on
/// the participant's own state, then on the channel; only when the channel
/// accepts is PREPARED persisted.
pub open spec fn participant_prepare_step(
    state: ResourceManagerState,
    states: Map<Seq<char>, ResourceManagerState>,
    id: Seq<char>,
) -> (bool, ResourceManagerState, Map<Seq<char>, ResourceManagerState>) {
    if !prepare_allowed(state) {
        (false, state, states)
    } else {
        let (ok, next_states) = channel_prepare_step(states, id);
        if ok {
            (true, ResourceManagerState::PREPARED, next_states)
        } else {
            (false, state, states)
        }
    }
}

/// A participant's unilateral abort, mirroring `participant_prepare_step`.
pub open spec fn participant_self_abort_step(
    state: ResourceManagerState,
    states: Map<Seq<char>, ResourceManagerState>,
    id: Seq<char>,
) -> (bool, ResourceManagerState, Map<Seq<char>, ResourceManagerState>) {
    if !self_abort_allowed(state) {
        (false, state, states)
    } else {
        let (ok, next_states) = channel_abort_step(states, id);
        if ok {
            (true, ResourceManagerState::ABORTED, next_states)
        } else {
            (false, state, states)
        }
    }
}

/// From any state outside the commit allow-list, the remote commit command
/// fails and the state remains what it was.
pub proof fn lemma_commit_command_gated(state: ResourceManagerState)
    requires
        !commit_command_allowed(state),
    ensures
        !client_commit_step(state).0,
        client_commit_step(state).1 == state,
{
}

/// From any state outside the abort allow-list, the remote abort command
/// fails and the state remains what it was.
pub proof fn lemma_abort_command_gated(state: ResourceManagerState)
    requires
        !abort_command_allowed(state),
    ensures
        !client_abort_step(state).0,
        client_abort_step(state).1 == state,
{
}

/// COMMITTED and ABORTED are absorbing: from COMMITTED the abort command
/// fails, from ABORTED the commit command fails, and neither moves the state.
pub proof fn lemma_terminal_states_are_absorbing()
    ensures
        !client_abort_step(ResourceManagerState::COMMITTED).0,
        client_abort_step(ResourceManagerState::COMMITTED).1 == ResourceManagerState::COMMITTED,
        !client_commit_step(ResourceManagerState::ABORTED).0,
        client_commit_step(ResourceManagerState::ABORTED).1 == ResourceManagerState::ABORTED,
{
}

/// A successful remote command either leaves the state where it was (the
/// idempotent cases) or follows a legal transition.
pub proof fn lemma_client_commands_respect_transitions(state: ResourceManagerState)
    ensures
        client_commit_step(state).0 ==> client_commit_step(state).1 == state || can_step(
            state,
            client_commit_step(state).1,
        ),
        client_abort_step(state).0 ==> client_abort_step(state).1 == state || can_step(
            state,
            client_abort_step(state).1,
        ),
{
}

/// Once the coordinator's bookkeeping records COMMITTED for any participant,
/// the coordination channel rejects prepare and abort for every identity,
/// including ones whose own bookkeeping state would otherwise permit the
/// action, and the bookkeeping stays unchanged.
pub proof fn lemma_commit_started_blocks_channel(
    states: Map<Seq<char>, ResourceManagerState>,
    id: Seq<char>,
)
    requires
        commit_has_started(states),
    ensures
        !channel_prepare_step(states, id).0,
        channel_prepare_step(states, id).1 == states,
        !channel_abort_step(states, id).0,
        channel_abort_step(states, id).1 == states,
{
}

/// Preparing does not start a commit: recording PREPARED for an identity
/// leaves the commit-has-started guard unset.
pub proof fn lemma_prepare_keeps_commit_unstarted(
    states: Map<Seq<char>, ResourceManagerState>,
    id: Seq<char>,
)
    requires
        !commit_has_started(states),
    ensures
        !commit_has_started(states.insert(id, ResourceManagerState::PREPARED)),
{
    let next = states.insert(id, ResourceManagerState::PREPARED);
    if commit_has_started(next) {
        let k = choose|k: Seq<char>|
            #[trigger] next.dom().contains(k) && next[k] == ResourceManagerState::COMMITTED;
        assert(k != id);
        assert(states.dom().contains(k) && states[k] == ResourceManagerState::COMMITTED);
    }
}

/// Prepare is idempotent: from WORKING, with the identity tracked in a
/// bookkeeping state that allows prepare and no commit started, two
/// consecutive participant prepares both succeed and both end in PREPARED,
/// the second one changing nothing.
pub proof fn lemma_prepare_is_idempotent(
    state: ResourceManagerState,
    states: Map<Seq<char>, ResourceManagerState>,
    id: Seq<char>,
)
    requires
        state == ResourceManagerState::WORKING,
        states.dom().contains(id),
        channel_prepare_allowed(states[id]),
        !commit_has_started(states),
    ensures
        ({
            let (ok1, state1, states1) = participant_prepare_step(state, states, id);
            let (ok2, state2, states2) = participant_prepare_step(state1, states1, id);
            &&& ok1
            &&& ok2
            &&& state1 == ResourceManagerState::PREPARED
            &&& state2 == ResourceManagerState::PREPARED
            &&& states2 == states1
        }),
{
    let states1 = states.insert(id, ResourceManagerState::PREPARED);
    lemma_prepare_keeps_commit_unstarted(states, id);
    assert(states1.insert(id, ResourceManagerState::PREPARED) =~= states1);
}

} // verus!
