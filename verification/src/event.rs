//! The records that executed actions leave for indexers.

use crate::nullifier::Nullifier;
use vstd::prelude::*;

verus! {

/// A side-effect record of an executed action.
#[derive(Clone, Copy, Debug, PartialEq, Eq)]
pub enum EventRecord {
    /// A note was spent; the record carries its nullifier.
    Spend { nullifier: Nullifier },
}

impl EventRecord {
    /// The nullifier that the record is about.
    pub open spec fn subject(self) -> Nullifier {
        match self {
            EventRecord::Spend { nullifier } => nullifier,
        }
    }

    /// The nullifier that the record is about.
    pub fn nullifier(&self) -> (n: Nullifier)
        ensures
            n == self.subject(),
    {
        match self {
            EventRecord::Spend { nullifier } => *nullifier,
        }
    }

    /// Whether two records say the same.
    pub fn same(&self, other: &EventRecord) -> (same: bool)
        ensures
            same == (*self == *other),
    {
        match (self, other) {
            (EventRecord::Spend { nullifier: a }, EventRecord::Spend { nullifier: b }) => a.same(b),
        }
    }
}

/// The record of a spend of `nullifier`.
pub open spec fn spend_event(nullifier: Nullifier) -> EventRecord {
    EventRecord::Spend { nullifier }
}

/// The record of a spend of `nullifier`.
pub fn spend(nullifier: &Nullifier) -> (event: EventRecord)
    ensures
        event == spend_event(*nullifier),
{
    EventRecord::Spend { nullifier: *nullifier }
}

} // verus!
