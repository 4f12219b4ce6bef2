//! A transaction and the order of its phases: the stateless checks of all its
//! actions, then their stateful checks against one committed state, then
//! their execution in list order into one write buffer, which is committed
//! if every one of them succeeded and discarded otherwise.
//!
//! Where several actions fail, the first failure in this order is the one
//! returned: phase by phase, and within the stateless phase action by action.

use crate::action::Action;
use crate::error::ActionError;
use crate::event::{spend_event, EventRecord};
use crate::groth16::ProofVerifier;
use crate::nullifier::{Nullifier, Source, SpentNullifierRecord, TransactionId};
use crate::records::{lemma_position, lemma_push, position, spent_map, unique};
use crate::spend::TransactionContext;
use crate::store::{StateStore, CommittedView};
use vstd::prelude::*;

verus! {

/// A transaction: its identity, the context of its stateless checks and its
/// actions in order.
#[derive(Clone, Debug, PartialEq, Eq)]
pub struct Transaction {
    pub id: TransactionId,
    pub context: TransactionContext,
    pub actions: Vec<Action>,
}

/// The provenance tag of the action at `index` of the transaction `id`.
pub open spec fn source_of(id: TransactionId, index: int) -> Source {
    Source { transaction: id, action_index: index as u64 }
}

impl Transaction {
    /// The entries that the actions add to the spent set, in list order.
    pub open spec fn records(self) -> Seq<SpentNullifierRecord> {
        Seq::new(
            self.actions@.len(),
            |i: int|
                SpentNullifierRecord {
                    nullifier: self.actions@[i].nullifier(),
                    source: source_of(self.id, i),
                },
        )
    }

    /// The events that the actions leave, in list order.
    pub open spec fn events(self) -> Seq<EventRecord> {
        Seq::new(self.actions@.len(), |i: int| spend_event(self.actions@[i].nullifier()))
    }

    /// The stateless check of the action at `i` fails.
    pub open spec fn rejected_at(self, verifier: ProofVerifier, i: int) -> bool {
        self.actions@[i].stateless(self.context, verifier) is Err
    }

    /// The action at `i` is the first whose stateless check fails.
    pub open spec fn first_rejected(self, verifier: ProofVerifier, i: int) -> bool {
        &&& 0 <= i < self.actions@.len()
        &&& self.rejected_at(verifier, i)
        &&& forall|j: int| 0 <= j < i ==> !self.rejected_at(verifier, j)
    }

    /// What the stateless phase returns: the failure of the first action
    /// that fails.
    pub open spec fn stateless(self, verifier: ProofVerifier) -> Result<(), ActionError> {
        if exists|i: int| self.first_rejected(verifier, i) {
            let first = choose|i: int| self.first_rejected(verifier, i);
            self.actions@[first].stateless(self.context, verifier)
        } else {
            Ok(())
        }
    }

    /// Whether an action spends a nullifier that `state` holds as spent.
    pub open spec fn spends_again(self, state: CommittedView) -> bool {
        exists|i: int|
            0 <= i < self.actions@.len() && state.spent.contains_key(
                (#[trigger] self.actions@[i]).nullifier(),
            )
    }

    /// What the stateful phase returns against the committed state `state`.
    pub open spec fn stateful(self, state: CommittedView) -> Result<(), ActionError> {
        if self.spends_again(state) {
            Err(ActionError::NullifierAlreadySpent)
        } else {
            Ok(())
        }
    }

    /// What the execute phase returns and leaves as the committed state. Two
    /// actions with one nullifier fail in the buffer; a nullifier that was
    /// spent before fails at the commit; either way nothing is committed.
    pub open spec fn executed(self, state: CommittedView) -> (Result<(), ActionError>, CommittedView) {
        if !unique(self.records()) {
            (Err(ActionError::DuplicateNullifierInBuffer), state)
        } else if self.spends_again(state) {
            (Err(ActionError::NullifierAlreadySpent), state)
        } else {
            (
                Ok(()),
                CommittedView {
                    spent: state.spent.union_prefer_right(spent_map(self.records())),
                    events: state.events + self.events(),
                },
            )
        }
    }

    /// What the three phases in order return and leave as the committed
    /// state.
    pub open spec fn processed(self, state: CommittedView, verifier: ProofVerifier) -> (
        Result<(), ActionError>,
        CommittedView,
    ) {
        if self.stateless(verifier) is Err {
            (self.stateless(verifier), state)
        } else if self.stateful(state) is Err {
            (self.stateful(state), state)
        } else {
            self.executed(state)
        }
    }

    /// The stateless phase passes exactly if no action's stateless check
    /// fails.
    pub proof fn lemma_stateless_ok(self, verifier: ProofVerifier)
        ensures
            self.stateless(verifier) is Ok <==> forall|i: int|
                0 <= i < self.actions@.len() ==> !self.rejected_at(verifier, i),
    {
        if exists|i: int| 0 <= i < self.actions@.len() && self.rejected_at(verifier, i) {
            let i = choose|i: int| 0 <= i < self.actions@.len() && self.rejected_at(verifier, i);
            self.lemma_first_rejected_exists(verifier, i);
        }
    }

    proof fn lemma_first_rejected_exists(self, verifier: ProofVerifier, i: int)
        requires
            0 <= i < self.actions@.len(),
            self.rejected_at(verifier, i),
        ensures
            exists|k: int| self.first_rejected(verifier, k),
        decreases i,
    {
        if exists|j: int| 0 <= j < i && self.rejected_at(verifier, j) {
            let j = choose|j: int| 0 <= j < i && self.rejected_at(verifier, j);
            self.lemma_first_rejected_exists(verifier, j);
        } else {
            assert(self.first_rejected(verifier, i));
        }
    }

    /// Runs the stateless check of every action, in list order, and returns
    /// the first failure.
    pub fn check_stateless(&self, verifier: &ProofVerifier) -> (result: Result<(), ActionError>)
        ensures
            result == self.stateless(*verifier),
    {
        let mut i: usize = 0;
        while i < self.actions.len()
            invariant
                i <= self.actions.len(),
                forall|j: int| 0 <= j < i ==> !self.rejected_at(*verifier, j),
            decreases self.actions.len() - i,
        {
            let checked = self.actions[i].check_stateless(self.context, verifier);
            if checked.is_err() {
                proof {
                    assert(self.first_rejected(*verifier, i as int));
                    let first = choose|k: int| self.first_rejected(*verifier, k);
                    assert(first == i) by {
                        if first < i {
                            assert(!self.rejected_at(*verifier, first));
                        } else if i < first {
                            assert(!self.rejected_at(*verifier, i as int));
                        }
                    }
                }
                return checked;
            }
            i += 1;
        }
        proof {
            self.lemma_stateless_ok(*verifier);
        }
        Ok(())
    }

    /// Runs the stateful check of every action against the committed state.
    pub fn check_stateful(&self, state: &StateStore) -> (result: Result<(), ActionError>)
        ensures
            result == self.stateful(state@),
    {
        let mut i: usize = 0;
        while i < self.actions.len()
            invariant
                i <= self.actions.len(),
                forall|j: int|
                    0 <= j < i ==> !state@.spent.contains_key(
                        (#[trigger] self.actions@[j]).nullifier(),
                    ),
            decreases self.actions.len() - i,
        {
            if self.actions[i].check_stateful(state).is_err() {
                return Err(ActionError::NullifierAlreadySpent);
            }
            i += 1;
        }
        Ok(())
    }

    /// Executes the actions in list order into one write buffer, each under
    /// its own provenance tag, and commits the buffer. If an execution or
    /// the commit fails, the buffer is discarded and the committed state
    /// stays as it was.
    pub fn execute(&self, state: &mut StateStore) -> (result: Result<(), ActionError>)
        requires
            old(state).wf(),
        ensures
            final(state).wf(),
            final(state)@.consistent(),
            (result, final(state)@) == self.executed(old(state)@),
    {
        let ghost records = self.records();
        let mut buffer = state.begin();
        let mut i: usize = 0;
        assert(records.take(0) =~= Seq::empty());
        assert(spent_map(Seq::<SpentNullifierRecord>::empty()) =~= Map::empty());
        assert(self.events().take(0) =~= Seq::empty());
        while i < self.actions.len()
            invariant
                i <= self.actions.len(),
                *state == *old(state),
                state.wf(),
                buffer.wf(),
                records == self.records(),
                unique(records.take(i as int)),
                buffer@.staged == spent_map(records.take(i as int)),
                buffer@.events == self.events().take(i as int),
            decreases self.actions.len() - i,
        {
            let ghost before = records.take(i as int);
            let ghost entry = records[i as int];
            buffer.set_current_source(Source { transaction: self.id, action_index: i as u64 });
            match self.actions[i].execute(&mut buffer) {
                Ok(()) => {},
                Err(e) => {
                    proof {
                        let k = position(before, entry.nullifier);
                        assert(before[k].nullifier == entry.nullifier);
                        assert(records[k].nullifier == records[i as int].nullifier);
                        state.lemma_wf_view();
                    }
                    state.discard(buffer);
                    return Err(e);
                },
            }
            proof {
                lemma_push(before, entry);
                assert(records.take(i + 1) =~= before.push(entry));
                assert(self.events().take(i + 1) =~= self.events().take(i as int).push(
                    spend_event(entry.nullifier),
                ));
            }
            i += 1;
        }
        proof {
            assert(records.take(i as int) =~= records);
            assert(self.events().take(i as int) =~= self.events());
            assert forall|n: Nullifier| #[trigger]
                buffer@.staged.contains_key(n) implies buffer@.events.contains(spend_event(n)) by {
                let k = position(records, n);
                assert(records[k].nullifier == n);
                assert(self.events()[k] == spend_event(n));
            }
            if state@.clashes_with(buffer@) {
                let n = choose|n: Nullifier| #[trigger]
                    buffer@.staged.contains_key(n) && state@.spent.contains_key(n);
                let k = position(records, n);
                assert(records[k].nullifier == n);
                assert(state@.spent.contains_key(self.actions@[k].nullifier()));
            }
            if self.spends_again(state@) {
                let k = choose|k: int|
                    0 <= k < self.actions@.len() && state@.spent.contains_key(
                        (#[trigger] self.actions@[k]).nullifier(),
                    );
                lemma_position(records, k);
                assert(buffer@.staged.contains_key(records[k].nullifier));
            }
        }
        state.commit(buffer)
    }

    /// Takes the transaction through its three phases. It is accepted, and
    /// its changes are committed, only if every action passes every phase;
    /// otherwise the committed state stays as it was.
    pub fn process(&self, state: &mut StateStore, verifier: &ProofVerifier) -> (result: Result<
        (),
        ActionError,
    >)
        requires
            old(state).wf(),
        ensures
            final(state).wf(),
            final(state)@.consistent(),
            (result, final(state)@) == self.processed(old(state)@, *verifier),
    {
        proof {
            state.lemma_wf_view();
        }
        match self.check_stateless(verifier) {
            Ok(()) => {},
            Err(e) => {
                return Err(e);
            },
        }
        match self.check_stateful(state) {
            Ok(()) => {},
            Err(e) => {
                return Err(e);
            },
        }
        self.execute(state)
    }
}

} // verus!
