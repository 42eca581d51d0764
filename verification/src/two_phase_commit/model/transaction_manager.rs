//! The coordinator side of the protocol: the coordination-channel capability
//! interface, the coordinator's bookkeeping table with its mathematical view,
//! and the per-operation state gates of the coordination channel.

use vstd::prelude::*;

use crate::two_phase_commit::model::resource_manager::{
    Id, ResourceManagerClientError, ResourceManagerState,
};

pub mod simple_transaction_manager;

verus! {

/// The coordination channel rejected an operation: either a commit has already
/// started for the transaction, or the identity is unknown, or the identity's
/// bookkeeping state forbids the operation.
#[derive(Debug, Clone, PartialEq, Eq)]
pub enum TransactionManagerClientError {
    /// Some participant is already recorded COMMITTED; no further prepare or
    /// abort is accepted for any participant of the transaction.
    CommitHasStarted,
    /// The channel has no bookkeeping entry for this identity.
    UnknownId(Id),
    /// The identity's current bookkeeping state is outside the allow-list.
    StateError { id: Id, state: ResourceManagerState },
}

/// A coordinator-initiated operation failed: either some tracked participant's
/// bookkeeping state forbids it, or the remote command on the participant
/// failed and its error is surfaced unchanged.
#[derive(Debug, Clone, PartialEq, Eq)]
pub enum TransactionManagerError {
    /// A tracked participant's bookkeeping state is outside the allow-list.
    StateError { id: Id, state: ResourceManagerState },
    /// The remote command on the participant failed; surfaced unchanged.
    ClientError(ResourceManagerClientError),
}

impl From<ResourceManagerClientError> for TransactionManagerError {
    fn from(value: ResourceManagerClientError) -> (r: Self) {
        TransactionManagerError::ClientError(value)
    }
}

impl vstd::std_specs::convert::FromSpecImpl<ResourceManagerClientError> for TransactionManagerError {
    open spec fn obeys_from_spec() -> bool {
        true
    }

    open spec fn from_spec(value: ResourceManagerClientError) -> Self {
        TransactionManagerError::ClientError(value)
    }
}

/// Bookkeeping states from which the channel accepts a participant's prepare.
pub open spec fn channel_prepare_allowed(state: ResourceManagerState) -> bool {
    state == ResourceManagerState::WORKING || state == ResourceManagerState::PREPARED
}

/// Bookkeeping states from which the channel accepts a participant's
/// unilateral abort; idempotent at ABORTED.
pub open spec fn channel_abort_allowed(state: ResourceManagerState) -> bool {
    state == ResourceManagerState::WORKING || state == ResourceManagerState::ABORTED
}

/// The coordinator's belief about each participant, as a mathematical map
/// from identity to participant state.
pub open spec fn states_map(entries: Seq<(Id, ResourceManagerState)>) -> Map<
    Seq<char>,
    ResourceManagerState,
>
    decreases entries.len(),
{
    if entries.len() == 0 {
        Map::empty()
    } else {
        states_map(entries.drop_last()).insert(entries.last().0@, entries.last().1)
    }
}

/// Each identity occurs at most once in a bookkeeping table.
pub open spec fn distinct_ids(entries: Seq<(Id, ResourceManagerState)>) -> bool {
    forall|i: int, j: int|
        0 <= i < j < entries.len() ==> (#[trigger] entries[i]).0@ != (#[trigger] entries[j]).0@
}

/// Runtime check of `distinct_ids`.
pub fn has_distinct_ids(entries: &Vec<(Id, ResourceManagerState)>) -> (b: bool)
    ensures
        b == distinct_ids(entries@),
{
    let mut i: usize = 0;
    while i < entries.len()
        invariant
            i <= entries@.len(),
            forall|k: int, l: int|
                0 <= k < l < i ==> (#[trigger] entries@[k]).0@ != (#[trigger] entries@[l]).0@,
        decreases entries@.len() - i,
    {
        let mut j: usize = 0;
        while j < i
            invariant
                j <= i,
                i < entries@.len(),
                forall|k: int, l: int|
                    0 <= k < l < i ==> (#[trigger] entries@[k]).0@ != (#[trigger] entries@[l]).0@,
                forall|k: int| 0 <= k < j ==> (#[trigger] entries@[k]).0@ != entries@[i as int].0@,
            decreases i - j,
        {
            if entries[j].0 == entries[i].0 {
                return false;
            }
            j += 1;
        }
        i += 1;
    }
    true
}

/// The commit-has-started guard: some participant is recorded COMMITTED.
pub open spec fn commit_has_started(states: Map<Seq<char>, ResourceManagerState>) -> bool {
    exists|id: Seq<char>|
        #[trigger] states.dom().contains(id) && states[id] == ResourceManagerState::COMMITTED
}

/// The channel a participant uses to notify the coordinator of its own
/// prepare or abort.
///
/// The contracts are the coordination rules of the protocol: once a commit has
/// started nothing more is accepted, a successful notification records exactly
/// the announced transition for a known identity whose bookkeeping state
/// allows it, and a failed notification leaves the bookkeeping unchanged.
pub trait TransactionManagerClient {
    /// The coordinator bookkeeping this channel reads and writes.
    spec fn bookkeeping(&self) -> Map<Seq<char>, ResourceManagerState>;

    fn prepare(&mut self, id: &Id) -> (r: Result<(), TransactionManagerClientError>)
        ensures
            commit_has_started(old(self).bookkeeping()) ==> r is Err,
            r is Ok ==> old(self).bookkeeping().dom().contains(id@)
                && channel_prepare_allowed(old(self).bookkeeping()[id@])
                && final(self).bookkeeping() == old(self).bookkeeping().insert(
                id@,
                ResourceManagerState::PREPARED,
            ),
            r is Err ==> final(self).bookkeeping() == old(self).bookkeeping(),
    ;

    fn abort(&mut self, id: &Id) -> (r: Result<(), TransactionManagerClientError>)
        ensures
            commit_has_started(old(self).bookkeeping()) ==> r is Err,
            r is Ok ==> old(self).bookkeeping().dom().contains(id@)
                && channel_abort_allowed(old(self).bookkeeping()[id@])
                && final(self).bookkeeping() == old(self).bookkeeping().insert(
                id@,
                ResourceManagerState::ABORTED,
            ),
            r is Err ==> final(self).bookkeeping() == old(self).bookkeeping(),
    ;
}

/// A bookkeeping table with distinct identities views to a map holding every
/// entry's state.
pub proof fn lemma_states_map_entry(entries: Seq<(Id, ResourceManagerState)>, i: int)
    requires
        distinct_ids(entries),
        0 <= i < entries.len(),
    ensures
        states_map(entries).dom().contains(entries[i].0@),
        states_map(entries)[entries[i].0@] == entries[i].1,
    decreases entries.len(),
{
    if i == entries.len() - 1 {
    } else {
        assert(distinct_ids(entries.drop_last()));
        lemma_states_map_entry(entries.drop_last(), i);
        assert(entries.drop_last()[i] == entries[i]);
        assert(entries[entries.len() - 1].0@ != entries[i].0@);
    }
}

/// An identity is in the view's domain exactly when some entry carries it.
pub proof fn lemma_states_map_dom(entries: Seq<(Id, ResourceManagerState)>, id: Seq<char>)
    ensures
        states_map(entries).dom().contains(id) <==> exists|i: int|
            0 <= i < entries.len() && (#[trigger] entries[i]).0@ == id,
    decreases entries.len(),
{
    if entries.len() == 0 {
    } else {
        lemma_states_map_dom(entries.drop_last(), id);
        if entries.last().0@ == id {
            assert((#[trigger] entries[entries.len() - 1]).0@ == id);
        } else {
            if states_map(entries).dom().contains(id) {
                let i = choose|i: int|
                    0 <= i < entries.drop_last().len() && (#[trigger] entries.drop_last()[i]).0@
                        == id;
                assert((#[trigger] entries[i]).0@ == id);
            }
            if exists|i: int| 0 <= i < entries.len() && (#[trigger] entries[i]).0@ == id {
                let i = choose|i: int| 0 <= i < entries.len() && (#[trigger] entries[i]).0@ == id;
                assert(i < entries.len() - 1);
                assert((#[trigger] entries.drop_last()[i]).0@ == id);
            }
        }
    }
}

/// Updating one entry in place updates exactly that identity in the view.
pub proof fn lemma_states_map_update(
    entries: Seq<(Id, ResourceManagerState)>,
    i: int,
    id: Id,
    state: ResourceManagerState,
)
    requires
        distinct_ids(entries),
        0 <= i < entries.len(),
        id@ == entries[i].0@,
    ensures
        states_map(entries.update(i, (id, state))) == states_map(entries).insert(id@, state),
        distinct_ids(entries.update(i, (id, state))),
    decreases entries.len(),
{
    let updated = entries.update(i, (id, state));
    assert forall|k: int, l: int| 0 <= k < l < updated.len() implies (#[trigger] updated[k]).0@ != (
    #[trigger] updated[l]).0@ by {
        assert(entries[k].0@ != entries[l].0@);
    }
    if i == entries.len() - 1 {
        assert(updated.drop_last() =~= entries.drop_last());
        assert(states_map(updated) =~= states_map(entries).insert(id@, state));
    } else {
        assert(distinct_ids(entries.drop_last()));
        assert(entries.drop_last()[i] == entries[i]);
        lemma_states_map_update(entries.drop_last(), i, id, state);
        assert(updated.drop_last() =~= entries.drop_last().update(i, (id, state)));
        assert(entries.last().0@ != id@);
        assert(updated.last() == entries.last());
        assert(states_map(updated) =~= states_map(entries).insert(id@, state));
    }
}

/// Appending an entry with a fresh identity inserts it into the view.
pub proof fn lemma_states_map_push(
    entries: Seq<(Id, ResourceManagerState)>,
    id: Id,
    state: ResourceManagerState,
)
    requires
        distinct_ids(entries),
        forall|i: int| 0 <= i < entries.len() ==> (#[trigger] entries[i]).0@ != id@,
    ensures
        states_map(entries.push((id, state))) == states_map(entries).insert(id@, state),
        distinct_ids(entries.push((id, state))),
{
    let pushed = entries.push((id, state));
    assert(pushed.drop_last() =~= entries);
    assert(states_map(pushed) == states_map(entries).insert(id@, state));
    assert forall|k: int, l: int| 0 <= k < l < pushed.len() implies (#[trigger] pushed[k]).0@ != (
    #[trigger] pushed[l]).0@ by {
        if l < pushed.len() - 1 {
            assert(entries[k].0@ != entries[l].0@);
        } else {
            assert(pushed[k] == entries[k]);
        }
    }
}

/// The commit-has-started guard over the view coincides with some entry of
/// the table being COMMITTED.
pub proof fn lemma_commit_has_started_entries(entries: Seq<(Id, ResourceManagerState)>)
    requires
        distinct_ids(entries),
    ensures
        commit_has_started(states_map(entries)) <==> exists|i: int|
            0 <= i < entries.len() && (#[trigger] entries[i]).1 == ResourceManagerState::COMMITTED,
{
    if commit_has_started(states_map(entries)) {
        let id = choose|id: Seq<char>|
            #[trigger] states_map(entries).dom().contains(id) && states_map(entries)[id]
                == ResourceManagerState::COMMITTED;
        lemma_states_map_dom(entries, id);
        let i = choose|i: int| 0 <= i < entries.len() && (#[trigger] entries[i]).0@ == id;
        lemma_states_map_entry(entries, i);
        assert((#[trigger] entries[i]).1 == ResourceManagerState::COMMITTED);
    }
    if exists|i: int|
        0 <= i < entries.len() && (#[trigger] entries[i]).1 == ResourceManagerState::COMMITTED {
        let i = choose|i: int|
            0 <= i < entries.len() && (#[trigger] entries[i]).1
                == ResourceManagerState::COMMITTED;
        lemma_states_map_entry(entries, i);
        assert(states_map(entries).dom().contains(entries[i].0@));
    }
}

/// Finds the position of an identity in a bookkeeping table.
pub fn find_index(entries: &Vec<(Id, ResourceManagerState)>, id: &Id) -> (r: Option<usize>)
    ensures
        r matches Some(i) ==> i < entries@.len() && entries@[i as int].0@ == id@,
        r is None ==> forall|i: int| 0 <= i < entries@.len() ==> (#[trigger] entries@[i]).0@ != id@,
{
    let mut i: usize = 0;
    while i < entries.len()
        invariant
            i <= entries@.len(),
            forall|j: int| 0 <= j < i ==> (#[trigger] entries@[j]).0@ != id@,
        decreases entries@.len() - i,
    {
        if entries[i].0 == *id {
            return Some(i);
        }
        i += 1;
    }
    None
}

/// Whether any entry of a bookkeeping table is COMMITTED.
pub fn any_committed(entries: &Vec<(Id, ResourceManagerState)>) -> (b: bool)
    ensures
        b == exists|i: int|
            0 <= i < entries@.len() && (#[trigger] entries@[i]).1
                == ResourceManagerState::COMMITTED,
{
    let mut i: usize = 0;
    while i < entries.len()
        invariant
            i <= entries@.len(),
            forall|j: int|
                0 <= j < i ==> (#[trigger] entries@[j]).1 != ResourceManagerState::COMMITTED,
        decreases entries@.len() - i,
    {
        if entries[i].1 == ResourceManagerState::COMMITTED {
            return true;
        }
        i += 1;
    }
    false
}

/// Overwrites the entry at a known position. Never unwinds, so it may mutate
/// a table held behind a type invariant.
pub fn update_entry(
    entries: &mut Vec<(Id, ResourceManagerState)>,
    i: usize,
    id: Id,
    state: ResourceManagerState,
)
    requires
        i < old(entries)@.len(),
    ensures
        final(entries)@ == old(entries)@.update(i as int, (id, state)),
    no_unwind
{
    entries[i] = (id, state);
}

/// Records a state for an identity: overwrites the entry carrying it, or
/// appends one when the identity is new.
pub fn set_state(
    entries: &mut Vec<(Id, ResourceManagerState)>,
    id: Id,
    state: ResourceManagerState,
)
    requires
        distinct_ids(old(entries)@),
    ensures
        distinct_ids(final(entries)@),
        states_map(final(entries)@) == states_map(old(entries)@).insert(id@, state),
{
    match find_index(entries, &id) {
        Some(i) => {
            proof {
                lemma_states_map_update(entries@, i as int, id, state);
            }
            entries[i] = (id, state);
        },
        None => {
            proof {
                lemma_states_map_push(entries@, id, state);
            }
            entries.push((id, state));
        },
    }
}

} // verus!
