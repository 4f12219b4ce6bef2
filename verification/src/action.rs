//! The closed set of action kinds and the three phases that each of them has.

use crate::error::ActionError;
use crate::groth16::ProofVerifier;
use crate::nullifier::Nullifier;
use crate::spend::{Spend, TransactionContext};
use crate::statement::ProofStatement;
use crate::store::{BufferView, StateStore, CommittedView, WriteBuffer};
use vstd::prelude::*;

verus! {

/// One action of a transaction. The kinds are fixed by the protocol version;
/// every kind is checked and executed through the same three phases.
#[derive(Clone, Debug, PartialEq, Eq)]
pub enum Action {
    /// Spends a note.
    Spend(Spend),
}

impl Action {
    /// The nullifier that the action spends.
    pub open spec fn nullifier(self) -> Nullifier {
        match self {
            Action::Spend(spend) => spend.body.nullifier,
        }
    }

    /// The public inputs that the action's proof has to be verified against
    /// in a transaction with `context`.
    pub open spec fn statement(self, context: TransactionContext) -> ProofStatement {
        match self {
            Action::Spend(spend) => spend.body.statement(context.anchor),
        }
    }

    /// What the stateless check returns.
    pub open spec fn stateless(self, context: TransactionContext, verifier: ProofVerifier) -> Result<
        (),
        ActionError,
    > {
        match self {
            Action::Spend(spend) => spend.stateless(context, verifier),
        }
    }

    /// What the stateful check returns against the committed state `state`.
    pub open spec fn stateful(self, state: CommittedView) -> Result<(), ActionError> {
        match self {
            Action::Spend(spend) => spend.stateful(state),
        }
    }

    /// What execution returns and leaves in the buffer `state`.
    pub open spec fn executed(self, state: BufferView) -> (Result<(), ActionError>, BufferView) {
        match self {
            Action::Spend(spend) => spend.executed(state),
        }
    }

    /// The nullifier that the action spends.
    pub fn spent_nullifier(&self) -> (n: Nullifier)
        ensures
            n == self.nullifier(),
    {
        match self {
            Action::Spend(spend) => spend.body.nullifier,
        }
    }

    /// The public inputs that the action's proof has to be verified against
    /// in a transaction with `context`.
    pub fn proof_statement(&self, context: &TransactionContext) -> (statement: ProofStatement)
        ensures
            statement == self.statement(*context),
    {
        match self {
            Action::Spend(spend) => spend.proof_statement(context),
        }
    }

    /// The first phase: a function of the action, the transaction context
    /// and the verifier's key alone.
    pub fn check_stateless(&self, context: TransactionContext, verifier: &ProofVerifier) -> (result:
        Result<(), ActionError>)
        ensures
            result == self.stateless(context, *verifier),
    {
        match self {
            Action::Spend(spend) => spend.check_stateless(context, verifier),
        }
    }

    /// The second phase: reads the committed state and changes nothing.
    pub fn check_stateful(&self, state: &StateStore) -> (result: Result<(), ActionError>)
        ensures
            result == self.stateful(state@),
    {
        match self {
            Action::Spend(spend) => spend.check_stateful(state),
        }
    }

    /// The third phase: stages the action's changes in the write buffer.
    pub fn execute(&self, state: &mut WriteBuffer) -> (result: Result<(), ActionError>)
        requires
            old(state).wf(),
        ensures
            final(state).wf(),
            (result, final(state)@) == self.executed(old(state)@),
    {
        match self {
            Action::Spend(spend) => spend.execute(state),
        }
    }
}

} // verus!
