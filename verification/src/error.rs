//! Why an action, and with it its transaction, is turned down.

use vstd::prelude::*;

verus! {

/// The reasons for which an action is rejected. Any of them rejects the whole
/// transaction; none is retried.
#[derive(Clone, Copy, Debug, PartialEq, Eq, Structural)]
pub enum ActionError {
    /// The authorization signature does not verify under the action's key.
    AuthSignatureInvalid,
    /// The zero-knowledge proof was not accepted for the action's public inputs.
    ProofInvalid,
    /// The nullifier is already part of the committed spent set.
    NullifierAlreadySpent,
    /// The nullifier was already staged in the same write buffer.
    DuplicateNullifierInBuffer,
    /// An internal invariant did not hold; never caused by what a submitter sent.
    PreconditionViolation,
}

impl ActionError {
    /// What the rejection says, in words.
    pub open spec fn text(self) -> Seq<char> {
        match self {
            ActionError::AuthSignatureInvalid => "spend auth signature failed to verify"@,
            ActionError::ProofInvalid => "a spend proof did not verify"@,
            ActionError::NullifierAlreadySpent => "nullifier was already spent"@,
            ActionError::DuplicateNullifierInBuffer => "nullifier is spent twice in one transaction"@,
            ActionError::PreconditionViolation => "an execution precondition does not hold"@,
        }
    }

    /// Whether the rejection is the fault of the pipeline's own driver and
    /// not of what was submitted.
    pub open spec fn internal(self) -> bool {
        self == ActionError::PreconditionViolation
    }

    /// What the rejection says, in words.
    pub fn message(&self) -> (message: &'static str)
        ensures
            message@ == self.text(),
    {
        match self {
            ActionError::AuthSignatureInvalid => "spend auth signature failed to verify",
            ActionError::ProofInvalid => "a spend proof did not verify",
            ActionError::NullifierAlreadySpent => "nullifier was already spent",
            ActionError::DuplicateNullifierInBuffer => "nullifier is spent twice in one transaction",
            ActionError::PreconditionViolation => "an execution precondition does not hold",
        }
    }

    /// Whether the rejection is the fault of the pipeline's own driver and
    /// not of what was submitted. Such a rejection is fatal to the batch.
    pub fn is_internal(&self) -> (internal: bool)
        ensures
            internal == self.internal(),
    {
        match self {
            ActionError::PreconditionViolation => true,
            _ => false,
        }
    }
}

} // verus!
