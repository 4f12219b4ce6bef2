use shielded_pool::error::ActionError;
use shielded_pool::event::{spend, EventRecord};
use shielded_pool::nullifier::{Nullifier, Source, SpentNullifierRecord, TransactionId};
use shielded_pool::records::find_record;
use shielded_pool::store::{StateStore, WriteBuffer};

fn nullifier(tag: u8) -> Nullifier {
    let mut bytes = [0u8; 32];
    bytes[31] = tag;
    Nullifier(bytes)
}

fn source(transaction: u8, action_index: u64) -> Source {
    Source { transaction: TransactionId([transaction; 32]), action_index }
}

fn settled_buffer(store: &StateStore, tags: &[u8], transaction: u8) -> WriteBuffer {
    let mut buffer = store.begin();
    for (i, tag) in tags.iter().enumerate() {
        let n = nullifier(*tag);
        assert_eq!(buffer.mark_spent(n, source(transaction, i as u64)), Ok(()));
        assert_eq!(buffer.append_event(spend(&n)), Ok(()));
    }
    buffer
}

#[test]
fn fresh_store_has_nothing_spent() {
    let store = StateStore::new();
    assert!(!store.is_spent(&nullifier(1)));
    assert_eq!(store.spent_source(&nullifier(1)), None);
    assert!(store.event_log().is_empty());
    assert!(store.spent_records().is_empty());
}

#[test]
fn fresh_buffer_has_no_source_and_nothing_staged() {
    let buffer = WriteBuffer::new();
    assert_eq!(buffer.current_source(), None);
    assert!(!buffer.is_staged(&nullifier(1)));
    assert!(buffer.is_settled());
}

#[test]
fn source_is_read_back_as_it_was_set() {
    let mut buffer = WriteBuffer::new();
    buffer.set_current_source(source(9, 4));
    assert_eq!(buffer.current_source(), Some(source(9, 4)));
    buffer.set_current_source(source(9, 5));
    assert_eq!(buffer.current_source(), Some(source(9, 5)));
}

#[test]
fn mark_spent_stages_once() {
    let mut buffer = WriteBuffer::new();
    assert_eq!(buffer.mark_spent(nullifier(1), source(1, 0)), Ok(()));
    assert!(buffer.is_staged(&nullifier(1)));
    assert!(!buffer.is_staged(&nullifier(2)));
    assert_eq!(
        buffer.mark_spent(nullifier(1), source(1, 1)),
        Err(ActionError::DuplicateNullifierInBuffer)
    );
    assert_eq!(buffer.mark_spent(nullifier(2), source(1, 1)), Ok(()));
    assert!(buffer.is_staged(&nullifier(2)));
}

#[test]
fn staged_nullifier_is_not_visible_in_committed_state() {
    let store = StateStore::new();
    let mut buffer = store.begin();
    assert_eq!(buffer.mark_spent(nullifier(1), source(1, 0)), Ok(()));
    assert!(!store.is_spent(&nullifier(1)));
}

#[test]
fn event_before_staging_is_refused() {
    let mut buffer = WriteBuffer::new();
    assert_eq!(
        buffer.append_event(spend(&nullifier(1))),
        Err(ActionError::PreconditionViolation)
    );
    assert!(buffer.is_settled());
}

#[test]
fn event_is_accepted_once_after_staging() {
    let mut buffer = WriteBuffer::new();
    assert_eq!(buffer.mark_spent(nullifier(1), source(1, 0)), Ok(()));
    assert!(!buffer.is_settled());
    assert_eq!(buffer.append_event(spend(&nullifier(1))), Ok(()));
    assert!(buffer.is_settled());
    assert_eq!(
        buffer.append_event(spend(&nullifier(1))),
        Err(ActionError::PreconditionViolation)
    );
    assert!(buffer.is_settled());
}

#[test]
fn events_may_come_in_another_order_than_the_nullifiers() {
    let mut store = StateStore::new();
    let mut buffer = store.begin();
    assert_eq!(buffer.mark_spent(nullifier(1), source(1, 0)), Ok(()));
    assert_eq!(buffer.mark_spent(nullifier(2), source(1, 1)), Ok(()));
    assert_eq!(buffer.append_event(spend(&nullifier(2))), Ok(()));
    assert_eq!(buffer.append_event(spend(&nullifier(1))), Ok(()));
    assert_eq!(store.commit(buffer), Ok(()));
    assert_eq!(
        store.event_log().clone(),
        vec![
            EventRecord::Spend { nullifier: nullifier(2) },
            EventRecord::Spend { nullifier: nullifier(1) }
        ]
    );
    assert_eq!(store.spent_source(&nullifier(1)), Some(source(1, 0)));
    assert_eq!(store.spent_source(&nullifier(2)), Some(source(1, 1)));
}

#[test]
fn commit_makes_staged_changes_visible() {
    let mut store = StateStore::new();
    let buffer = settled_buffer(&store, &[1, 2], 7);
    assert_eq!(store.commit(buffer), Ok(()));
    assert!(store.is_spent(&nullifier(1)));
    assert!(store.is_spent(&nullifier(2)));
    assert!(!store.is_spent(&nullifier(3)));
    assert_eq!(store.spent_source(&nullifier(1)), Some(source(7, 0)));
    assert_eq!(store.spent_source(&nullifier(2)), Some(source(7, 1)));
    assert_eq!(
        store.spent_records().clone(),
        vec![
            SpentNullifierRecord { nullifier: nullifier(1), source: source(7, 0) },
            SpentNullifierRecord { nullifier: nullifier(2), source: source(7, 1) }
        ]
    );
    assert_eq!(
        store.event_log().clone(),
        vec![
            EventRecord::Spend { nullifier: nullifier(1) },
            EventRecord::Spend { nullifier: nullifier(2) }
        ]
    );
}

#[test]
fn commit_of_an_empty_buffer_changes_nothing() {
    let mut store = StateStore::new();
    let first = settled_buffer(&store, &[1], 7);
    assert_eq!(store.commit(first), Ok(()));
    let empty = store.begin();
    assert_eq!(store.commit(empty), Ok(()));
    assert_eq!(store.spent_records().len(), 1);
    assert_eq!(store.event_log().len(), 1);
}

#[test]
fn commits_add_up() {
    let mut store = StateStore::new();
    let first = settled_buffer(&store, &[1, 2], 7);
    assert_eq!(store.commit(first), Ok(()));
    let second = settled_buffer(&store, &[3], 8);
    assert_eq!(store.commit(second), Ok(()));
    assert_eq!(store.spent_records().len(), 3);
    assert_eq!(store.event_log().len(), 3);
    assert_eq!(store.spent_source(&nullifier(1)), Some(source(7, 0)));
    assert_eq!(store.spent_source(&nullifier(3)), Some(source(8, 0)));
    assert_eq!(store.event_log()[2], EventRecord::Spend { nullifier: nullifier(3) });
}

#[test]
fn commit_refuses_a_nullifier_spent_before() {
    let mut store = StateStore::new();
    let first = settled_buffer(&store, &[1, 2], 7);
    assert_eq!(store.commit(first), Ok(()));
    let second = settled_buffer(&store, &[3, 2], 8);
    assert_eq!(store.commit(second), Err(ActionError::NullifierAlreadySpent));
    assert!(!store.is_spent(&nullifier(3)));
    assert_eq!(store.spent_source(&nullifier(2)), Some(source(7, 1)));
    assert_eq!(store.spent_records().len(), 2);
    assert_eq!(store.event_log().len(), 2);
}

#[test]
fn commit_refuses_a_buffer_that_is_not_settled() {
    let mut store = StateStore::new();
    let mut buffer = store.begin();
    assert_eq!(buffer.mark_spent(nullifier(1), source(1, 0)), Ok(()));
    assert_eq!(buffer.append_event(spend(&nullifier(1))), Ok(()));
    assert_eq!(buffer.mark_spent(nullifier(2), source(1, 1)), Ok(()));
    assert_eq!(store.commit(buffer), Err(ActionError::PreconditionViolation));
    assert!(!store.is_spent(&nullifier(1)));
    assert!(!store.is_spent(&nullifier(2)));
    assert!(store.event_log().is_empty());
}

#[test]
fn unsettled_comes_before_already_spent() {
    let mut store = StateStore::new();
    let first = settled_buffer(&store, &[1], 7);
    assert_eq!(store.commit(first), Ok(()));
    let mut buffer = store.begin();
    assert_eq!(buffer.mark_spent(nullifier(1), source(2, 0)), Ok(()));
    assert_eq!(store.commit(buffer), Err(ActionError::PreconditionViolation));
}

#[test]
fn discard_leaves_the_committed_state() {
    let mut store = StateStore::new();
    let first = settled_buffer(&store, &[1], 7);
    assert_eq!(store.commit(first), Ok(()));
    let second = settled_buffer(&store, &[2, 3], 8);
    store.discard(second);
    assert!(store.is_spent(&nullifier(1)));
    assert!(!store.is_spent(&nullifier(2)));
    assert!(!store.is_spent(&nullifier(3)));
    assert_eq!(store.spent_records().len(), 1);
    assert_eq!(store.event_log().len(), 1);
}

#[test]
fn log_holds_an_event_exactly_for_each_spent_nullifier() {
    let mut store = StateStore::new();
    let first = settled_buffer(&store, &[1, 2], 7);
    assert_eq!(store.commit(first), Ok(()));
    let second = settled_buffer(&store, &[5], 8);
    assert_eq!(store.commit(second), Ok(()));
    for tag in 0u8..8 {
        let n = nullifier(tag);
        let in_log = store.event_log().iter().filter(|e| **e == spend(&n)).count();
        assert_eq!(in_log, if store.is_spent(&n) { 1 } else { 0 });
    }
}

#[test]
fn find_record_gives_the_place_of_the_entry() {
    let records = vec![
        SpentNullifierRecord { nullifier: nullifier(4), source: source(1, 0) },
        SpentNullifierRecord { nullifier: nullifier(9), source: source(1, 1) },
    ];
    assert_eq!(find_record(&records, &nullifier(4)), Some(0));
    assert_eq!(find_record(&records, &nullifier(9)), Some(1));
    assert_eq!(find_record(&records, &nullifier(5)), None);
}

#[test]
fn nullifiers_differ_by_any_byte() {
    let a = Nullifier([0u8; 32]);
    for i in 0..32 {
        let mut bytes = [0u8; 32];
        bytes[i] = 1;
        assert!(!a.same(&Nullifier(bytes)));
    }
    assert!(a.same(&Nullifier([0u8; 32])));
}

#[test]
fn sources_differ_by_transaction_or_index() {
    assert!(source(1, 0).same(&source(1, 0)));
    assert!(!source(1, 0).same(&source(2, 0)));
    assert!(!source(1, 0).same(&source(1, 1)));
}

#[test]
fn event_carries_its_nullifier() {
    let event = spend(&nullifier(6));
    assert_eq!(event, EventRecord::Spend { nullifier: nullifier(6) });
    assert_eq!(event.nullifier(), nullifier(6));
    assert!(event.same(&spend(&nullifier(6))));
    assert!(!event.same(&spend(&nullifier(7))));
}
