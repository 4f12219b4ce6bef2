//! Nullifiers and the provenance recorded with them.

use vstd::prelude::*;

verus! {

/// Compares two 32-byte strings.
pub fn bytes32_eq(a: &[u8; 32], b: &[u8; 32]) -> (same: bool)
    ensures
        same == (*a == *b),
{
    let mut i: usize = 0;
    while i < 32
        invariant
            i <= 32,
            forall|j: int| 0 <= j < i ==> a[j] == b[j],
        decreases 32 - i,
    {
        if a[i] != b[i] {
            return false;
        }
        i += 1;
    }
    assert(*a =~= *b);
    true
}

/// The tag published when a note is spent. The same note always gives the
/// same tag, so a tag seen twice is a note spent twice.
#[derive(Clone, Copy, Debug, PartialEq, Eq)]
pub struct Nullifier(pub [u8; 32]);

impl Nullifier {
    /// Whether two tags are the same tag.
    pub fn same(&self, other: &Nullifier) -> (same: bool)
        ensures
            same == (*self == *other),
    {
        bytes32_eq(&self.0, &other.0)
    }
}

/// The identity of a transaction.
#[derive(Clone, Copy, Debug, PartialEq, Eq)]
pub struct TransactionId(pub [u8; 32]);

/// Why a nullifier was spent: the transaction and the place of the action in
/// it. The tag is attached to a write buffer before an action executes and
/// stored beside the nullifier that the action spends.
#[derive(Clone, Copy, Debug, PartialEq, Eq)]
pub struct Source {
    pub transaction: TransactionId,
    pub action_index: u64,
}

impl Source {
    /// Whether two tags name the same action of the same transaction.
    pub fn same(&self, other: &Source) -> (same: bool)
        ensures
            same == (*self == *other),
    {
        bytes32_eq(&self.transaction.0, &other.transaction.0) && self.action_index
            == other.action_index
    }
}

/// One entry of the spent set: a nullifier and why it was spent.
#[derive(Clone, Copy, Debug, PartialEq, Eq)]
pub struct SpentNullifierRecord {
    pub nullifier: Nullifier,
    pub source: Source,
}

} // verus!
