//! The state that actions are checked against and written to: the committed
//! spent set with its event log, and the write buffer in which a transaction
//! stages its changes until they are committed or discarded as a whole.

use crate::error::ActionError;
use crate::event::{spend_event, EventRecord};
use crate::nullifier::{Nullifier, Source, SpentNullifierRecord};
use crate::records::{
    find_record, lemma_concat, lemma_len, lemma_position, lemma_push, position, spent_in, spent_map,
    unique,
};
use vstd::prelude::*;

verus! {

/// What a write buffer holds, as mathematics.
pub struct BufferView {
    /// The provenance tag that the next execution reads.
    pub source: Option<Source>,
    /// The staged part of the spent set.
    pub staged: Map<Nullifier, Source>,
    /// The staged events, oldest first.
    pub events: Seq<EventRecord>,
}

/// What the committed state holds, as mathematics.
pub struct CommittedView {
    /// The spent set: each spent nullifier with the reason it was spent.
    pub spent: Map<Nullifier, Source>,
    /// The event log, oldest first.
    pub events: Seq<EventRecord>,
}

impl BufferView {
    /// The buffer in which nothing is staged.
    pub open spec fn fresh() -> BufferView {
        BufferView { source: None, staged: Map::empty(), events: Seq::empty() }
    }

    /// Every staged event is about a staged nullifier, and none is staged twice.
    pub open spec fn well_formed(self) -> bool {
        &&& self.events.no_duplicates()
        &&& forall|i: int|
            0 <= i < self.events.len() ==> self.staged.contains_key(
                (#[trigger] self.events[i]).subject(),
            )
    }

    /// Every staged nullifier has its event.
    pub open spec fn settled(self) -> bool {
        forall|n: Nullifier| #[trigger]
            self.staged.contains_key(n) ==> self.events.contains(spend_event(n))
    }

    /// The buffer with `source` as its provenance tag.
    pub open spec fn with_source(self, source: Source) -> BufferView {
        BufferView { source: Some(source), ..self }
    }

    /// Staging `nullifier`: refused where it is staged already.
    pub open spec fn mark_spent(self, nullifier: Nullifier, source: Source) -> (
        Result<(), ActionError>,
        BufferView,
    ) {
        if self.staged.contains_key(nullifier) {
            (Err(ActionError::DuplicateNullifierInBuffer), self)
        } else {
            (Ok(()), BufferView { staged: self.staged.insert(nullifier, source), ..self })
        }
    }

    /// Staging `event`: accepted once, and only after its nullifier was staged.
    pub open spec fn append_event(self, event: EventRecord) -> (
        Result<(), ActionError>,
        BufferView,
    ) {
        if self.staged.contains_key(event.subject()) && !self.events.contains(event) {
            (Ok(()), BufferView { events: self.events.push(event), ..self })
        } else {
            (Err(ActionError::PreconditionViolation), self)
        }
    }
}

impl CommittedView {
    /// The state before anything was committed.
    pub open spec fn empty() -> CommittedView {
        CommittedView { spent: Map::empty(), events: Seq::empty() }
    }

    /// The event log and the spent set tell the same story: a nullifier is
    /// spent exactly if the log holds its event, and holds it once.
    pub open spec fn consistent(self) -> bool {
        &&& self.events.no_duplicates()
        &&& forall|n: Nullifier|
            self.spent.contains_key(n) <==> #[trigger] self.events.contains(spend_event(n))
    }

    /// Whether `buffer` stages a nullifier that is spent already.
    pub open spec fn clashes_with(self, buffer: BufferView) -> bool {
        exists|n: Nullifier| #[trigger] buffer.staged.contains_key(n) && self.spent.contains_key(n)
    }

    /// Committing `buffer`: all of it or nothing. A buffer that is not
    /// settled, or that would spend a nullifier a second time, changes nothing.
    pub open spec fn commit(self, buffer: BufferView) -> (Result<(), ActionError>, CommittedView) {
        if !buffer.settled() {
            (Err(ActionError::PreconditionViolation), self)
        } else if self.clashes_with(buffer) {
            (Err(ActionError::NullifierAlreadySpent), self)
        } else {
            (
                Ok(()),
                CommittedView {
                    spent: self.spent.union_prefer_right(buffer.staged),
                    events: self.events + buffer.events,
                },
            )
        }
    }
}

/// Whether `events` holds `event`.
fn find_event(events: &Vec<EventRecord>, event: &EventRecord) -> (found: bool)
    ensures
        found == events@.contains(*event),
{
    let mut i: usize = 0;
    while i < events.len()
        invariant
            i <= events.len(),
            forall|k: int| 0 <= k < i ==> events[k] != *event,
        decreases events.len() - i,
    {
        if events[i].same(event) {
            return true;
        }
        i += 1;
    }
    false
}

/// The write scope of one transaction. What is staged in it is seen by
/// nobody else, and reaches the committed state only through
/// [`StateStore::commit`].
pub struct WriteBuffer {
    source: Option<Source>,
    staged: Vec<SpentNullifierRecord>,
    events: Vec<EventRecord>,
}

impl View for WriteBuffer {
    type V = BufferView;

    closed spec fn view(&self) -> BufferView {
        BufferView { source: self.source, staged: spent_map(self.staged@), events: self.events@ }
    }
}

impl WriteBuffer {
    /// The invariant of a buffer: no nullifier is staged twice, and its view
    /// is well formed.
    pub closed spec fn wf(&self) -> bool {
        &&& unique(self.staged@)
        &&& self@.well_formed()
    }

    /// What `wf` says of the view.
    pub proof fn lemma_wf_view(&self)
        requires
            self.wf(),
        ensures
            self@.well_formed(),
    {
    }

    /// A buffer in which nothing is staged and no provenance tag is set.
    pub fn new() -> (buffer: WriteBuffer)
        ensures
            buffer.wf(),
            buffer@ == BufferView::fresh(),
    {
        let buffer = WriteBuffer { source: None, staged: Vec::new(), events: Vec::new() };
        assert(buffer@.staged =~= Map::empty());
        buffer
    }

    /// Attaches the provenance tag that the next execution reads.
    pub fn set_current_source(&mut self, source: Source)
        requires
            old(self).wf(),
        ensures
            final(self).wf(),
            final(self)@ == old(self)@.with_source(source),
    {
        self.source = Some(source);
    }

    /// The provenance tag, if one is set.
    pub fn current_source(&self) -> (source: Option<Source>)
        ensures
            source == self@.source,
    {
        self.source
    }

    /// Whether `nullifier` is staged in this buffer.
    pub fn is_staged(&self, nullifier: &Nullifier) -> (staged: bool)
        ensures
            staged == self@.staged.contains_key(*nullifier),
    {
        find_record(&self.staged, nullifier).is_some()
    }

    /// Stages `nullifier` as spent for the reason `source`. A nullifier that
    /// is staged already is refused, and the buffer stays as it was.
    pub fn mark_spent(&mut self, nullifier: Nullifier, source: Source) -> (result: Result<
        (),
        ActionError,
    >)
        requires
            old(self).wf(),
        ensures
            final(self).wf(),
            (result, final(self)@) == old(self)@.mark_spent(nullifier, source),
    {
        if find_record(&self.staged, &nullifier).is_some() {
            return Err(ActionError::DuplicateNullifierInBuffer);
        }
        proof {
            lemma_push(self.staged@, SpentNullifierRecord { nullifier, source });
        }
        self.staged.push(SpentNullifierRecord { nullifier, source });
        Ok(())
    }

    /// Stages `event`. It is refused, and the buffer stays as it was, unless
    /// the nullifier it is about was staged before and has no event yet.
    pub fn append_event(&mut self, event: EventRecord) -> (result: Result<(), ActionError>)
        requires
            old(self).wf(),
        ensures
            final(self).wf(),
            (result, final(self)@) == old(self)@.append_event(event),
    {
        let subject = event.nullifier();
        if find_record(&self.staged, &subject).is_none() || find_event(&self.events, &event) {
            return Err(ActionError::PreconditionViolation);
        }
        self.events.push(event);
        Ok(())
    }

    /// Whether every staged nullifier has its event.
    pub fn is_settled(&self) -> (settled: bool)
        ensures
            settled == self@.settled(),
    {
        let mut i: usize = 0;
        while i < self.staged.len()
            invariant
                i <= self.staged.len(),
                forall|k: int|
                    0 <= k < i ==> self.events@.contains(
                        spend_event((#[trigger] self.staged[k]).nullifier),
                    ),
            decreases self.staged.len() - i,
        {
            let event = EventRecord::Spend { nullifier: self.staged[i].nullifier };
            if !find_event(&self.events, &event) {
                assert(spent_in(self.staged@, self.staged[i as int].nullifier));
                assert(self@.staged.contains_key(self.staged[i as int].nullifier));
                return false;
            }
            i += 1;
        }
        assert forall|n: Nullifier| #[trigger]
            self@.staged.contains_key(n) implies self@.events.contains(spend_event(n)) by {
            let k = position(self.staged@, n);
            assert(self.staged[k].nullifier == n);
        }
        true
    }
}

/// The committed state: the spent set and the event log. Reads see only what
/// was committed; the one way to change it is to commit a write buffer.
pub struct StateStore {
    spent: Vec<SpentNullifierRecord>,
    events: Vec<EventRecord>,
}

impl View for StateStore {
    type V = CommittedView;

    closed spec fn view(&self) -> CommittedView {
        CommittedView { spent: spent_map(self.spent@), events: self.events@ }
    }
}

impl StateStore {
    /// The invariant of the committed state: no nullifier is recorded twice,
    /// and the event log agrees with the spent set.
    pub closed spec fn wf(&self) -> bool {
        &&& unique(self.spent@)
        &&& self@.consistent()
    }

    /// In every committed state a nullifier is spent exactly if the log
    /// holds its event.
    pub proof fn lemma_wf_view(&self)
        requires
            self.wf(),
        ensures
            self@.consistent(),
    {
    }

    /// The state before anything was committed.
    pub fn new() -> (store: StateStore)
        ensures
            store.wf(),
            store@.consistent(),
            store@ == CommittedView::empty(),
    {
        let store = StateStore { spent: Vec::new(), events: Vec::new() };
        assert(store@.spent =~= Map::empty());
        store
    }

    /// Whether `nullifier` is part of the committed spent set.
    pub fn is_spent(&self, nullifier: &Nullifier) -> (spent: bool)
        ensures
            spent == self@.spent.contains_key(*nullifier),
    {
        find_record(&self.spent, nullifier).is_some()
    }

    /// Why `nullifier` was spent, if it was.
    pub fn spent_source(&self, nullifier: &Nullifier) -> (source: Option<Source>)
        requires
            self.wf(),
        ensures
            source == if self@.spent.contains_key(*nullifier) {
                Some(self@.spent[*nullifier])
            } else {
                None
            },
    {
        match find_record(&self.spent, nullifier) {
            Some(i) => {
                proof {
                    lemma_position(self.spent@, i as int);
                }
                Some(self.spent[i].source)
            },
            None => None,
        }
    }

    /// The committed event log, oldest first.
    pub fn event_log(&self) -> (log: &Vec<EventRecord>)
        ensures
            log@ == self@.events,
    {
        &self.events
    }

    /// The entries of the committed spent set, one for each spent nullifier.
    pub fn spent_records(&self) -> (records: &Vec<SpentNullifierRecord>)
        requires
            self.wf(),
        ensures
            records@.len() == self@.spent.len(),
            forall|i: int|
                0 <= i < records@.len() ==> self@.spent.contains_pair(
                    (#[trigger] records@[i]).nullifier,
                    records@[i].source,
                ),
            forall|n: Nullifier|
                self@.spent.contains_key(n) ==> exists|i: int|
                    0 <= i < records@.len() && (#[trigger] records@[i]).nullifier == n,
    {
        proof {
            lemma_len(self.spent@);
            assert forall|i: int| 0 <= i < self.spent@.len() implies self@.spent.contains_pair(
                (#[trigger] self.spent@[i]).nullifier,
                self.spent@[i].source,
            ) by {
                lemma_position(self.spent@, i);
            }
        }
        &self.spent
    }

    /// Opens the write scope of a transaction.
    pub fn begin(&self) -> (buffer: WriteBuffer)
        ensures
            buffer.wf(),
            buffer@ == BufferView::fresh(),
    {
        WriteBuffer::new()
    }

    /// Gives up everything staged in `buffer`. The committed state stays as
    /// it is.
    pub fn discard(&mut self, buffer: WriteBuffer)
        ensures
            *final(self) == *old(self),
    {
    }

    /// Commits `buffer` as a whole: its nullifiers join the spent set and its
    /// events the log. A buffer in which a staged nullifier has no event is
    /// refused with `PreconditionViolation`, one that stages a nullifier
    /// spent before with `NullifierAlreadySpent`; both leave the state as it
    /// was.
    pub fn commit(&mut self, buffer: WriteBuffer) -> (result: Result<(), ActionError>)
        requires
            old(self).wf(),
            buffer.wf(),
        ensures
            final(self).wf(),
            final(self)@.consistent(),
            (result, final(self)@) == old(self)@.commit(buffer@),
    {
        if !buffer.is_settled() {
            return Err(ActionError::PreconditionViolation);
        }
        let mut i: usize = 0;
        while i < buffer.staged.len()
            invariant
                *self == *old(self),
                self.wf(),
                buffer.wf(),
                buffer@.settled(),
                i <= buffer.staged.len(),
                forall|k: int|
                    0 <= k < i ==> !spent_in(self.spent@, (#[trigger] buffer.staged[k]).nullifier),
            decreases buffer.staged.len() - i,
        {
            if find_record(&self.spent, &buffer.staged[i].nullifier).is_some() {
                assert(spent_in(buffer.staged@, buffer.staged[i as int].nullifier));
                assert(buffer@.staged.contains_key(buffer.staged[i as int].nullifier));
                return Err(ActionError::NullifierAlreadySpent);
            }
            i += 1;
        }
        let mut buffer = buffer;
        proof {
            assert forall|n: Nullifier| !(spent_in(self.spent@, n) && spent_in(buffer.staged@, n)) by {
                if spent_in(buffer.staged@, n) {
                    let k = position(buffer.staged@, n);
                    assert(buffer.staged[k].nullifier == n);
                }
            }
            lemma_concat(self.spent@, buffer.staged@);
            lemma_commit_consistent(old(self)@, buffer@);
        }
        self.spent.append(&mut buffer.staged);
        self.events.append(&mut buffer.events);
        Ok(())
    }
}

/// A commit that is accepted keeps the event log and the spent set in
/// agreement.
pub proof fn lemma_commit_consistent(store: CommittedView, buffer: BufferView)
    requires
        store.consistent(),
        buffer.well_formed(),
    ensures
        store.commit(buffer).1.consistent(),
{
    if buffer.settled() && !store.clashes_with(buffer) {
        let after = store.commit(buffer).1;
        assert forall|i: int, j: int|
            0 <= i < after.events.len() && 0 <= j < after.events.len() && i != j implies after.events[i]
            != after.events[j] by {
            let old_len = store.events.len() as int;
            if i < old_len && j < old_len {
            } else if i >= old_len && j >= old_len {
                assert(buffer.events[i - old_len] != buffer.events[j - old_len]);
            } else {
                let (o, b) = if i < old_len {
                    (i, j - old_len)
                } else {
                    (j, i - old_len)
                };
                let n = buffer.events[b].subject();
                assert(buffer.staged.contains_key(n));
                if store.events[o] == buffer.events[b] {
                    assert(store.events.contains(spend_event(n)));
                    assert(store.spent.contains_key(n));
                }
            }
        }
        assert forall|n: Nullifier|
            after.spent.contains_key(n) <==> #[trigger] after.events.contains(spend_event(n)) by {
            let e = spend_event(n);
            if after.events.contains(e) {
                let i = after.events.index_of(e);
                if i < store.events.len() {
                    assert(store.events[i] == e);
                    assert(store.events.contains(e));
                } else {
                    assert(buffer.events[i - store.events.len()].subject() == n);
                }
            }
            if store.spent.contains_key(n) {
                assert(store.events.contains(e));
                let i = store.events.index_of(e);
                assert(after.events[i] == e);
            }
            if buffer.staged.contains_key(n) {
                assert(buffer.events.contains(e));
                let i = buffer.events.index_of(e);
                assert(after.events[i + store.events.len()] == e);
            }
        }
    }
}

} // verus!
