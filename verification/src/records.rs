//! The spent set as the sequence of its entries, and the map that such a
//! sequence stands for.

use crate::nullifier::{Nullifier, Source, SpentNullifierRecord};
use vstd::prelude::*;

verus! {

/// Whether `records` holds an entry for `n`.
pub open spec fn spent_in(records: Seq<SpentNullifierRecord>, n: Nullifier) -> bool {
    exists|i: int| 0 <= i < records.len() && (#[trigger] records[i]).nullifier == n
}

/// No nullifier has two entries.
pub open spec fn unique(records: Seq<SpentNullifierRecord>) -> bool {
    forall|i: int, j: int|
        0 <= i < j < records.len() ==> (#[trigger] records[i]).nullifier != (
        #[trigger] records[j]).nullifier
}

/// The place of an entry for `n` in `records`, where there is one.
pub open spec fn position(records: Seq<SpentNullifierRecord>, n: Nullifier) -> int {
    choose|i: int| 0 <= i < records.len() && (#[trigger] records[i]).nullifier == n
}

/// The spent set that `records` stand for: each nullifier with the source
/// of its entry.
pub open spec fn spent_map(records: Seq<SpentNullifierRecord>) -> Map<Nullifier, Source> {
    Map::new(|n: Nullifier| spent_in(records, n), |n: Nullifier| records[position(records, n)].source)
}

/// Where no nullifier has two entries, an entry is found at its own place,
/// and the map holds its source.
pub proof fn lemma_position(records: Seq<SpentNullifierRecord>, i: int)
    requires
        unique(records),
        0 <= i < records.len(),
    ensures
        position(records, records[i].nullifier) == i,
        spent_in(records, records[i].nullifier),
        spent_map(records)[records[i].nullifier] == records[i].source,
{
    let n = records[i].nullifier;
    let k = position(records, n);
    assert(0 <= k < records.len() && records[k].nullifier == n);
    if k < i {
        assert(records[k].nullifier != records[i].nullifier);
    } else if i < k {
        assert(records[i].nullifier != records[k].nullifier);
    }
}

/// Adding an entry for a new nullifier adds that one pair to the map.
pub proof fn lemma_push(records: Seq<SpentNullifierRecord>, r: SpentNullifierRecord)
    requires
        unique(records),
        !spent_in(records, r.nullifier),
    ensures
        unique(records.push(r)),
        spent_map(records.push(r)) == spent_map(records).insert(r.nullifier, r.source),
{
    let grown = records.push(r);
    assert forall|i: int, j: int| 0 <= i < j < grown.len() implies (#[trigger] grown[i]).nullifier
        != (#[trigger] grown[j]).nullifier by {
        if j == records.len() {
            assert(records[i].nullifier != r.nullifier);
        } else {
            assert(records[i].nullifier != records[j].nullifier);
        }
    }
    assert forall|n: Nullifier| spent_in(grown, n) <==> (spent_in(records, n) || n == r.nullifier) by {
        if spent_in(grown, n) {
            let i = position(grown, n);
            if i < records.len() {
                assert(records[i].nullifier == n);
            }
        }
        if spent_in(records, n) {
            let i = position(records, n);
            assert(grown[i].nullifier == n);
        }
        if n == r.nullifier {
            assert(grown[records.len() as int].nullifier == n);
        }
    }
    assert forall|n: Nullifier| spent_in(grown, n) implies #[trigger] spent_map(grown)[n] == spent_map(
        records,
    ).insert(r.nullifier, r.source)[n] by {
        let i = position(grown, n);
        lemma_position(grown, i);
        if i < records.len() {
            assert(records[i].nullifier == n);
            lemma_position(records, i);
        }
    }
    assert(spent_map(grown) =~= spent_map(records).insert(r.nullifier, r.source));
}

/// Joining two sequences that share no nullifier joins their maps.
pub proof fn lemma_concat(a: Seq<SpentNullifierRecord>, b: Seq<SpentNullifierRecord>)
    requires
        unique(a),
        unique(b),
        forall|n: Nullifier| !(spent_in(a, n) && spent_in(b, n)),
    ensures
        unique(a + b),
        spent_map(a + b) == spent_map(a).union_prefer_right(spent_map(b)),
{
    let ab = a + b;
    assert forall|i: int, j: int| 0 <= i < j < ab.len() implies (#[trigger] ab[i]).nullifier != (
    #[trigger] ab[j]).nullifier by {
        if j < a.len() {
            assert(a[i].nullifier != a[j].nullifier);
        } else if i >= a.len() {
            assert(b[i - a.len()].nullifier != b[j - a.len()].nullifier);
        } else {
            let n = a[i].nullifier;
            assert(spent_in(a, n));
            if b[j - a.len()].nullifier == n {
                assert(spent_in(b, n));
            }
        }
    }
    assert forall|n: Nullifier| spent_in(ab, n) <==> (spent_in(a, n) || spent_in(b, n)) by {
        if spent_in(ab, n) {
            let i = position(ab, n);
            if i < a.len() {
                assert(a[i].nullifier == n);
            } else {
                assert(b[i - a.len()].nullifier == n);
            }
        }
        if spent_in(a, n) {
            let i = position(a, n);
            assert(ab[i].nullifier == n);
        }
        if spent_in(b, n) {
            let i = position(b, n);
            assert(ab[i + a.len()].nullifier == n);
        }
    }
    assert forall|n: Nullifier| spent_in(ab, n) implies #[trigger] spent_map(ab)[n] == spent_map(
        a,
    ).union_prefer_right(spent_map(b))[n] by {
        let i = position(ab, n);
        lemma_position(ab, i);
        if i < a.len() {
            assert(a[i].nullifier == n);
            lemma_position(a, i);
            assert(spent_in(a, n));
        } else {
            assert(b[i - a.len()].nullifier == n);
            lemma_position(b, i - a.len());
        }
    }
    assert(spent_map(ab) =~= spent_map(a).union_prefer_right(spent_map(b)));
}

/// The place of the first entry for `n` among `records`, if there is one.
pub fn find_record(records: &Vec<SpentNullifierRecord>, n: &Nullifier) -> (at: Option<usize>)
    ensures
        match at {
            Some(i) => {
                &&& i < records.len()
                &&& records[i as int].nullifier == *n
                &&& forall|k: int| 0 <= k < i ==> (#[trigger] records[k]).nullifier != *n
            },
            None => !spent_in(records@, *n),
        },
{
    let mut i: usize = 0;
    while i < records.len()
        invariant
            i <= records.len(),
            forall|k: int| 0 <= k < i ==> (#[trigger] records[k]).nullifier != *n,
        decreases records.len() - i,
    {
        if records[i].nullifier.same(n) {
            return Some(i);
        }
        i += 1;
    }
    None
}


/// Where no nullifier has two entries, the map is as large as the sequence.
pub proof fn lemma_len(records: Seq<SpentNullifierRecord>)
    requires
        unique(records),
    ensures
        spent_map(records).dom().finite(),
        spent_map(records).len() == records.len(),
    decreases records.len(),
{
    if records.len() == 0 {
        assert(spent_map(records) =~= Map::empty());
    } else {
        let front = records.drop_last();
        let last = records.last();
        assert(unique(front)) by {
            assert forall|i: int, j: int| 0 <= i < j < front.len() implies (
            #[trigger] front[i]).nullifier != (#[trigger] front[j]).nullifier by {
                assert(records[i].nullifier != records[j].nullifier);
            }
        }
        assert(!spent_in(front, last.nullifier)) by {
            if spent_in(front, last.nullifier) {
                let i = position(front, last.nullifier);
                assert(records[i].nullifier != records[records.len() - 1].nullifier);
            }
        }
        lemma_len(front);
        lemma_push(front, last);
        assert(front.push(last) =~= records);
    }
}

} // verus!
