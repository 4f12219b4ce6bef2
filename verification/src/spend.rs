//! The spend action and its three phases.

use crate::error::ActionError;
use crate::event::{spend, spend_event, EventRecord};
use crate::groth16::ProofVerifier;
use crate::nullifier::{Nullifier, Source, SpentNullifierRecord};
use crate::signature::{spend_auth_verifies, verify_spend_auth};
use crate::statement::{
    Anchor, BalanceCommitment, ProofStatement, SpendProof, SpendVerificationKey,
};
use crate::store::{BufferView, StateStore, CommittedView, WriteBuffer};
use vstd::prelude::*;

verus! {

/// The commitment to a transaction's effects that its signatures sign.
#[derive(Clone, Copy, Debug, PartialEq, Eq)]
pub struct EffectHash(pub [u8; 64]);

/// A spend authorization signature, as its 64-byte encoding.
#[derive(Clone, Copy, Debug, PartialEq, Eq)]
pub struct SpendAuthSignature(pub [u8; 64]);

/// What the stateless check of every action of one transaction is given.
#[derive(Clone, Copy, Debug, PartialEq, Eq)]
pub struct TransactionContext {
    /// The root that the transaction claims as a valid earlier state.
    pub anchor: Anchor,
    /// The commitment to the transaction's effects.
    pub effect_hash: EffectHash,
}

/// The public part of a spend.
#[derive(Clone, Copy, Debug, PartialEq, Eq)]
pub struct SpendBody {
    pub balance_commitment: BalanceCommitment,
    pub nullifier: Nullifier,
    pub rk: SpendVerificationKey,
}

/// A spend: its public part, the signature that authorizes it and the proof
/// that it is well formed.
#[derive(Clone, Debug, PartialEq, Eq)]
pub struct Spend {
    pub body: SpendBody,
    pub auth_sig: SpendAuthSignature,
    pub proof: SpendProof,
}

/// The result of the stateless check, given what the two verifications
/// said. The signature is looked at first.
pub open spec fn stateless_outcome(signature_valid: bool, proof_valid: bool) -> Result<
    (),
    ActionError,
> {
    if !signature_valid {
        Err(ActionError::AuthSignatureInvalid)
    } else if !proof_valid {
        Err(ActionError::ProofInvalid)
    } else {
        Ok(())
    }
}

/// Decides the stateless check from what the two verifications said.
pub fn stateless_verdict(signature_valid: bool, proof_valid: bool) -> (result: Result<
    (),
    ActionError,
>)
    ensures
        result == stateless_outcome(signature_valid, proof_valid),
{
    if !signature_valid {
        Err(ActionError::AuthSignatureInvalid)
    } else if !proof_valid {
        Err(ActionError::ProofInvalid)
    } else {
        Ok(())
    }
}

/// The result of the stateful check, given whether the nullifier is part of
/// the committed spent set.
pub open spec fn stateful_outcome(already_spent: bool) -> Result<(), ActionError> {
    if already_spent {
        Err(ActionError::NullifierAlreadySpent)
    } else {
        Ok(())
    }
}

/// Decides the stateful check from what the committed state said of the
/// nullifier.
pub fn stateful_verdict(already_spent: bool) -> (result: Result<(), ActionError>)
    ensures
        result == stateful_outcome(already_spent),
{
    if already_spent {
        Err(ActionError::NullifierAlreadySpent)
    } else {
        Ok(())
    }
}

/// What the execution of a spend writes, in this order: the entry of the
/// spent set, then the event.
#[derive(Clone, Copy, Debug, PartialEq, Eq)]
pub struct SpendWrites {
    pub spent: SpentNullifierRecord,
    pub event: EventRecord,
}

impl SpendBody {
    /// The public inputs that a proof for this spend is verified against
    /// in a transaction that claims `anchor`.
    pub open spec fn statement(self, anchor: Anchor) -> ProofStatement {
        ProofStatement {
            anchor,
            balance_commitment: self.balance_commitment,
            nullifier: self.nullifier,
            rk: self.rk,
        }
    }
}

impl Spend {
    /// Whether the authorization signature verifies over `effect_hash`.
    pub open spec fn signature_valid(self, effect_hash: EffectHash) -> bool {
        spend_auth_verifies(self.body.rk.0@, effect_hash.0@, self.auth_sig.0@)
    }

    /// Whether `verifier` accepts the proof for the public inputs that the
    /// spend has under `anchor`.
    pub open spec fn proof_valid(self, anchor: Anchor, verifier: ProofVerifier) -> bool {
        verifier.accepts(self.body.statement(anchor), self.proof.0@)
    }

    /// What the stateless check returns.
    pub open spec fn stateless(self, context: TransactionContext, verifier: ProofVerifier) -> Result<
        (),
        ActionError,
    > {
        stateless_outcome(
            self.signature_valid(context.effect_hash),
            self.proof_valid(context.anchor, verifier),
        )
    }

    /// What the stateful check returns against the committed state `state`.
    pub open spec fn stateful(self, state: CommittedView) -> Result<(), ActionError> {
        stateful_outcome(state.spent.contains_key(self.body.nullifier))
    }

    /// What execution writes under the provenance tag `source`; without a
    /// tag there is nothing it may write.
    pub open spec fn written(self, source: Option<Source>) -> Result<SpendWrites, ActionError> {
        match source {
            None => Err(ActionError::PreconditionViolation),
            Some(source) => Ok(
                SpendWrites {
                    spent: SpentNullifierRecord { nullifier: self.body.nullifier, source },
                    event: spend_event(self.body.nullifier),
                },
            ),
        }
    }

    /// What execution returns and leaves in the buffer `state`.
    pub open spec fn executed(self, state: BufferView) -> (Result<(), ActionError>, BufferView) {
        match state.source {
            None => (Err(ActionError::PreconditionViolation), state),
            Some(source) => if state.staged.contains_key(self.body.nullifier) {
                (Err(ActionError::DuplicateNullifierInBuffer), state)
            } else {
                (
                    Ok(()),
                    BufferView {
                        staged: state.staged.insert(self.body.nullifier, source),
                        events: state.events.push(spend_event(self.body.nullifier)),
                        ..state
                    },
                )
            },
        }
    }

    /// The public inputs that the proof of this spend has to be verified
    /// against in a transaction with `context`.
    pub fn proof_statement(&self, context: &TransactionContext) -> (statement: ProofStatement)
        ensures
            statement == self.body.statement(context.anchor),
    {
        ProofStatement {
            anchor: context.anchor,
            balance_commitment: self.body.balance_commitment,
            nullifier: self.body.nullifier,
            rk: self.body.rk,
        }
    }

    /// The stateless check. It verifies the authorization signature over the
    /// effect hash under `rk`, and then has `verifier` verify the proof
    /// against the public inputs of this spend and the context's anchor. It
    /// reads no state and changes none.
    pub fn check_stateless(&self, context: TransactionContext, verifier: &ProofVerifier) -> (result:
        Result<(), ActionError>)
        ensures
            result == self.stateless(context, *verifier),
    {
        let signature_valid = verify_spend_auth(
            &self.body.rk.0,
            context.effect_hash.0.as_slice(),
            &self.auth_sig.0,
        );
        if !signature_valid {
            return Err(ActionError::AuthSignatureInvalid);
        }
        let statement = self.proof_statement(&context);
        stateless_verdict(signature_valid, verifier.verify(&statement, &self.proof))
    }

    /// The stateful check: the nullifier must not be part of the committed
    /// spent set. It sees nothing that is only staged.
    pub fn check_stateful(&self, state: &StateStore) -> (result: Result<(), ActionError>)
        ensures
            result == self.stateful(state@),
    {
        stateful_verdict(state.is_spent(&self.body.nullifier))
    }

    /// What execution has to write, given the provenance tag that was read
    /// from the write buffer. A missing tag is a breach of the driver's, and
    /// nothing may be written.
    pub fn writes(&self, source: Option<Source>) -> (result: Result<SpendWrites, ActionError>)
        ensures
            result == self.written(source),
    {
        match source {
            None => Err(ActionError::PreconditionViolation),
            Some(source) => Ok(
                SpendWrites {
                    spent: SpentNullifierRecord { nullifier: self.body.nullifier, source },
                    event: spend(&self.body.nullifier),
                },
            ),
        }
    }

    /// Execution: reads the provenance tag, stages the nullifier as spent
    /// with it, and then stages the event of the spend. Without a tag
    /// nothing is staged; a nullifier that is staged already is refused and
    /// nothing is staged.
    pub fn execute(&self, state: &mut WriteBuffer) -> (result: Result<(), ActionError>)
        requires
            old(state).wf(),
        ensures
            final(state).wf(),
            (result, final(state)@) == self.executed(old(state)@),
    {
        let writes = match self.writes(state.current_source()) {
            Ok(writes) => writes,
            Err(e) => {
                return Err(e);
            },
        };
        match state.mark_spent(writes.spent.nullifier, writes.spent.source) {
            Ok(()) => {},
            Err(e) => {
                return Err(e);
            },
        }
        proof {
            state.lemma_wf_view();
            old(state).lemma_wf_view();
            let e = spend_event(self.body.nullifier);
            if old(state)@.events.contains(e) {
                let i = old(state)@.events.index_of(e);
                assert(old(state)@.staged.contains_key(old(state)@.events[i].subject()));
            }
        }
        state.append_event(writes.event)
    }
}

} // verus!
