//! What holds of the pipeline as a whole, stated over the same functions
//! that the contracts of the phases use.

use crate::error::ActionError;
use crate::event::spend_event;
use crate::groth16::ProofVerifier;
use crate::nullifier::{Nullifier, Source};
use crate::records::{lemma_position, position, spent_in, spent_map, unique};
use crate::spend::{Spend, TransactionContext};
use crate::store::{lemma_commit_consistent, BufferView, CommittedView};
use crate::transaction::{source_of, Transaction};
use vstd::prelude::*;

verus! {

/// A spend whose signature verifies, whose proof the verifier accepts for
/// the spend's public inputs and the context's anchor, and whose nullifier
/// is not spent passes all three phases, and once its buffer is committed
/// the nullifier is spent for the reason the buffer was tagged with.
pub proof fn lemma_valid_spend_becomes_spent(
    spend: Spend,
    context: TransactionContext,
    verifier: ProofVerifier,
    state: CommittedView,
    source: Source,
)
    requires
        spend.signature_valid(context.effect_hash),
        spend.proof_valid(context.anchor, verifier),
        !state.spent.contains_key(spend.body.nullifier),
    ensures
        spend.stateless(context, verifier) is Ok,
        spend.stateful(state) is Ok,
        ({
            let (executed, buffer) = spend.executed(BufferView::fresh().with_source(source));
            let (committed, after) = state.commit(buffer);
            &&& executed is Ok
            &&& committed is Ok
            &&& after.spent.contains_pair(spend.body.nullifier, source)
            &&& after.events == state.events.push(spend_event(spend.body.nullifier))
        }),
{
    let n = spend.body.nullifier;
    let buffer = spend.executed(BufferView::fresh().with_source(source)).1;
    assert(buffer.events[0] == spend_event(n));
    assert forall|m: Nullifier| #[trigger] buffer.staged.contains_key(m) implies !state.spent.contains_key(
        m,
    ) by {
        assert(m == n);
    }
    assert(state.commit(buffer).1.events =~= state.events.push(spend_event(n)));
}

/// A transaction whose actions all pass the stateless check, and spend
/// nullifiers that differ from each other and are not spent yet, is
/// accepted; afterwards each of these nullifiers is spent for the reason
/// that names its action.
pub proof fn lemma_valid_transaction_is_committed(
    transaction: Transaction,
    state: CommittedView,
    verifier: ProofVerifier,
)
    requires
        forall|i: int|
            0 <= i < transaction.actions@.len() ==> !transaction.rejected_at(verifier, i),
        forall|i: int|
            0 <= i < transaction.actions@.len() ==> !state.spent.contains_key(
                (#[trigger] transaction.actions@[i]).nullifier(),
            ),
        forall|i: int, j: int|
            0 <= i < j < transaction.actions@.len() ==> (
            #[trigger] transaction.actions@[i]).nullifier() != (
            #[trigger] transaction.actions@[j]).nullifier(),
    ensures
        transaction.processed(state, verifier).0 is Ok,
        forall|i: int|
            0 <= i < transaction.actions@.len() ==> transaction.processed(
                state,
                verifier,
            ).1.spent.contains_pair(
                (#[trigger] transaction.actions@[i]).nullifier(),
                source_of(transaction.id, i),
            ),
{
    let records = transaction.records();
    transaction.lemma_stateless_ok(verifier);
    assert(unique(records)) by {
        assert forall|i: int, j: int| 0 <= i < j < records.len() implies (
        #[trigger] records[i]).nullifier != (#[trigger] records[j]).nullifier by {
            assert(transaction.actions@[i].nullifier() != transaction.actions@[j].nullifier());
        }
    }
    let after = transaction.processed(state, verifier).1;
    assert forall|i: int| 0 <= i < transaction.actions@.len() implies after.spent.contains_pair(
        (#[trigger] transaction.actions@[i]).nullifier(),
        source_of(transaction.id, i),
    ) by {
        lemma_position(records, i);
    }
}

/// Nothing is committed past a check: a transaction that is accepted has
/// every one of its actions pass the stateless and the stateful check
/// against the state it was processed in, and no two of them spend one
/// nullifier.
pub proof fn lemma_accepted_transaction_passed_every_check(
    transaction: Transaction,
    state: CommittedView,
    verifier: ProofVerifier,
)
    requires
        transaction.processed(state, verifier).0 is Ok,
    ensures
        forall|i: int|
            0 <= i < transaction.actions@.len() ==> (#[trigger] transaction.actions@[i]).stateless(
                transaction.context,
                verifier,
            ) is Ok,
        forall|i: int|
            0 <= i < transaction.actions@.len() ==> (#[trigger] transaction.actions@[i]).stateful(
                state,
            ) is Ok,
        forall|i: int, j: int|
            0 <= i < j < transaction.actions@.len() ==> (
            #[trigger] transaction.actions@[i]).nullifier() != (
            #[trigger] transaction.actions@[j]).nullifier(),
{
    transaction.lemma_stateless_ok(verifier);
    let records = transaction.records();
    assert forall|i: int| 0 <= i < transaction.actions@.len() implies (
    #[trigger] transaction.actions@[i]).stateless(transaction.context, verifier) is Ok by {
        assert(!transaction.rejected_at(verifier, i));
    }
    assert forall|i: int, j: int| 0 <= i < j < transaction.actions@.len() implies (
    #[trigger] transaction.actions@[i]).nullifier() != (
    #[trigger] transaction.actions@[j]).nullifier() by {
        assert(records[i].nullifier != records[j].nullifier);
    }
}

/// A spend whose nullifier is part of the committed spent set fails the
/// stateful check.
pub proof fn lemma_spent_nullifier_is_rejected(spend: Spend, state: CommittedView)
    requires
        state.spent.contains_key(spend.body.nullifier),
    ensures
        spend.stateful(state) == Err::<(), ActionError>(ActionError::NullifierAlreadySpent),
{
}

/// A transaction with an action whose nullifier is spent already is
/// rejected, and the committed state stays as it was. The reason is
/// `NullifierAlreadySpent` unless the stateless phase found another.
pub proof fn lemma_spent_nullifier_rejects_transaction(
    transaction: Transaction,
    state: CommittedView,
    verifier: ProofVerifier,
    i: int,
)
    requires
        0 <= i < transaction.actions@.len(),
        state.spent.contains_key(transaction.actions@[i].nullifier()),
    ensures
        transaction.processed(state, verifier).0 is Err,
        transaction.processed(state, verifier).1 == state,
        transaction.stateless(verifier) is Ok ==> transaction.processed(state, verifier).0 == Err::<
            (),
            ActionError,
        >(ActionError::NullifierAlreadySpent),
{
}

/// A transaction that is rejected, in whatever phase, leaves the committed
/// state as it was.
pub proof fn lemma_rejection_changes_nothing(
    transaction: Transaction,
    state: CommittedView,
    verifier: ProofVerifier,
)
    ensures
        transaction.processed(state, verifier).0 is Err ==> transaction.processed(
            state,
            verifier,
        ).1 == state,
{
}

/// Two spends of one nullifier that is not spent yet both pass the stateful
/// check; executed into one buffer, the first is staged and the second is
/// refused as a duplicate and leaves the buffer as the first left it.
pub proof fn lemma_second_spend_is_refused(
    first: Spend,
    second: Spend,
    state: CommittedView,
    buffer: BufferView,
    source: Source,
)
    requires
        first.body.nullifier == second.body.nullifier,
        !state.spent.contains_key(first.body.nullifier),
        !buffer.staged.contains_key(first.body.nullifier),
        buffer.source is Some,
    ensures
        first.stateful(state) is Ok,
        second.stateful(state) is Ok,
        ({
            let (executed, staged) = first.executed(buffer);
            &&& executed is Ok
            &&& second.executed(staged.with_source(source)) == (
                Err::<(), ActionError>(ActionError::DuplicateNullifierInBuffer),
                staged.with_source(source),
            )
        }),
{
}

/// A transaction in which two actions spend one nullifier, and which passes
/// the stateless and the stateful phase, is rejected as a duplicate in the
/// execute phase; nothing of it is committed, not even what the first of the
/// two had staged.
pub proof fn lemma_double_spend_rejects_transaction(
    transaction: Transaction,
    state: CommittedView,
    verifier: ProofVerifier,
    i: int,
    j: int,
)
    requires
        0 <= i < j < transaction.actions@.len(),
        transaction.actions@[i].nullifier() == transaction.actions@[j].nullifier(),
        transaction.stateless(verifier) is Ok,
        transaction.stateful(state) is Ok,
    ensures
        transaction.processed(state, verifier) == (
            Err::<(), ActionError>(ActionError::DuplicateNullifierInBuffer),
            state,
        ),
{
    let records = transaction.records();
    assert(records[i].nullifier == records[j].nullifier);
}

/// The committed state only grows: whatever a transaction does, every
/// nullifier that was spent stays spent for the reason it was spent for, and
/// the event log is continued, never rewritten.
pub proof fn lemma_history_is_kept(
    transaction: Transaction,
    state: CommittedView,
    verifier: ProofVerifier,
)
    ensures
        forall|n: Nullifier|
            state.spent.contains_key(n) ==> transaction.processed(
                state,
                verifier,
            ).1.spent.contains_pair(n, state.spent[n]),
        state.events.is_prefix_of(transaction.processed(state, verifier).1.events),
{
    let (result, after) = transaction.processed(state, verifier);
    if result is Ok {
        let records = transaction.records();
        assert forall|n: Nullifier| state.spent.contains_key(n) implies after.spent.contains_pair(
            n,
            state.spent[n],
        ) by {
            if spent_in(records, n) {
                let k = position(records, n);
                assert(records[k].nullifier == n);
                assert(state.spent.contains_key(transaction.actions@[k].nullifier()));
            }
        }
    }
}

/// A commit never takes a nullifier out of the spent set nor changes the
/// reason it was spent for, and it continues the event log.
pub proof fn lemma_commit_keeps_history(state: CommittedView, buffer: BufferView)
    ensures
        forall|n: Nullifier|
            state.spent.contains_key(n) ==> state.commit(buffer).1.spent.contains_pair(
                n,
                state.spent[n],
            ),
        state.events.is_prefix_of(state.commit(buffer).1.events),
{
    let after = state.commit(buffer).1;
    if state.commit(buffer).0 is Ok {
        assert forall|n: Nullifier| state.spent.contains_key(n) implies after.spent.contains_pair(
            n,
            state.spent[n],
        ) by {
            assert(!buffer.staged.contains_key(n));
        }
    }
}

/// The proof is checked for the anchor that the transaction claims and for
/// no other: where the signature verifies, the stateless check fails with
/// `ProofInvalid` exactly if the verifier does not accept the proof for the
/// public inputs with the claimed anchor, whatever it accepts for the anchor
/// that the proof was built for.
pub proof fn lemma_proof_is_checked_for_the_claimed_anchor(
    spend: Spend,
    claimed: TransactionContext,
    verifier: ProofVerifier,
)
    requires
        spend.signature_valid(claimed.effect_hash),
    ensures
        spend.body.statement(claimed.anchor).anchor == claimed.anchor,
        spend.stateless(claimed, verifier) == Err::<(), ActionError>(ActionError::ProofInvalid)
            <==> !verifier.accepts(spend.body.statement(claimed.anchor), spend.proof.0@),
{
}

/// Whatever a transaction does to a committed state in which a nullifier is
/// spent exactly if the log holds its event, the same is true afterwards;
/// and what an accepted transaction adds to the log is the event of each
/// nullifier that it adds to the spent set, and no other.
pub proof fn lemma_log_matches_spent_set(
    transaction: Transaction,
    state: CommittedView,
    verifier: ProofVerifier,
)
    requires
        state.consistent(),
    ensures
        transaction.processed(state, verifier).1.consistent(),
        transaction.processed(state, verifier).0 is Ok ==> forall|n: Nullifier|
            (transaction.processed(state, verifier).1.spent.contains_key(n)
                && !state.spent.contains_key(n)) <==> #[trigger] transaction.events().contains(
                spend_event(n),
            ),
{
    let (result, after) = transaction.processed(state, verifier);
    if result is Ok {
        let records = transaction.records();
        let events = transaction.events();
        let buffer = BufferView { source: None, staged: spent_map(records), events };
        assert(buffer.events.no_duplicates()) by {
            assert forall|i: int, j: int|
                0 <= i < events.len() && 0 <= j < events.len() && i != j implies events[i]
                != events[j] by {
                if i < j {
                    assert(records[i].nullifier != records[j].nullifier);
                } else {
                    assert(records[j].nullifier != records[i].nullifier);
                }
            }
        }
        assert forall|i: int| 0 <= i < buffer.events.len() implies buffer.staged.contains_key(
            (#[trigger] buffer.events[i]).subject(),
        ) by {
            assert(records[i].nullifier == events[i].subject());
        }
        assert forall|n: Nullifier| #[trigger]
            buffer.staged.contains_key(n) implies buffer.events.contains(spend_event(n)) by {
            let k = position(records, n);
            assert(records[k].nullifier == n);
            assert(events[k] == spend_event(n));
        }
        if state.clashes_with(buffer) {
            let n = choose|n: Nullifier| #[trigger]
                buffer.staged.contains_key(n) && state.spent.contains_key(n);
            let k = position(records, n);
            assert(records[k].nullifier == n);
            assert(state.spent.contains_key(transaction.actions@[k].nullifier()));
        }
        assert(state.commit(buffer).1 == after);
        lemma_commit_consistent(state, buffer);
        assert forall|n: Nullifier|
            (after.spent.contains_key(n) && !state.spent.contains_key(n)) <==> #[trigger] events.contains(
                spend_event(n),
            ) by {
            if events.contains(spend_event(n)) {
                let k = events.index_of(spend_event(n));
                assert(records[k].nullifier == n);
                assert(spent_in(records, n));
                assert(!state.spent.contains_key(transaction.actions@[k].nullifier()));
            }
            if after.spent.contains_key(n) && !state.spent.contains_key(n) {
                let k = position(records, n);
                assert(records[k].nullifier == n);
                assert(events[k] == spend_event(n));
            }
        }
    }
}

} // verus!
