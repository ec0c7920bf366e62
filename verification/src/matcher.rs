//! Selecting the record to keep in sync from a zone's records.
//!
//! The record is picked by name and type alone. Where several records of a
//! zone qualify, only the first in the given order is ever considered.

use crate::record::{record_views, Record, RecordView};
use vstd::prelude::*;

verus! {

/// The record type of an address record.
pub open spec fn address_type() -> Seq<char> {
    seq!['A']
}

/// Whether `record` is the address record of `name`: its name is `name`,
/// character for character, and its type is "A".
pub open spec fn selects(record: RecordView, name: Seq<char>) -> bool {
    record.name == name && record.type_field == address_type()
}

/// Whether position `at` holds the first record of `records` that `name` selects.
pub open spec fn is_first_match(records: Seq<RecordView>, name: Seq<char>, at: int) -> bool {
    &&& 0 <= at < records.len()
    &&& selects(records[at], name)
    &&& forall|earlier: int| 0 <= earlier < at ==> !selects(#[trigger] records[earlier], name)
}

/// The position of the first record of `records` that `name` selects, if any.
pub open spec fn first_match(records: Seq<RecordView>, name: Seq<char>) -> Option<int> {
    if exists|at: int| is_first_match(records, name, at) {
        Some(choose|at: int| is_first_match(records, name, at))
    } else {
        None
    }
}

/// The record that a search for `name` in `records` yields, if any.
pub open spec fn matched_record(records: Seq<RecordView>, name: Seq<char>) -> Option<RecordView> {
    match first_match(records, name) {
        Some(at) => Some(records[at]),
        None => None,
    }
}

/// At most one position holds the first match, so `first_match` is that position.
pub proof fn lemma_first_match_unique(records: Seq<RecordView>, name: Seq<char>, at: int)
    requires
        is_first_match(records, name, at),
    ensures
        first_match(records, name) == Some(at),
{
    let chosen = choose|i: int| is_first_match(records, name, i);
    assert(is_first_match(records, name, chosen));
    if chosen < at {
        assert(!selects(records[chosen], name));
    } else if at < chosen {
        assert(!selects(records[at], name));
    }
}

/// The search yields the first record, in the given order, whose name is
/// `name` and whose type is "A": the result is a member of `records`, it
/// qualifies, and no earlier member does. It yields nothing exactly when no
/// member qualifies.
pub proof fn lemma_first_match_is_earliest(records: Seq<RecordView>, name: Seq<char>)
    ensures
        match first_match(records, name) {
            Some(at) => {
                &&& 0 <= at < records.len()
                &&& matched_record(records, name) == Some(records[at])
                &&& selects(records[at], name)
                &&& forall|earlier: int|
                    0 <= earlier < at ==> !selects(#[trigger] records[earlier], name)
            },
            None => forall|i: int| 0 <= i < records.len() ==> !selects(#[trigger] records[i], name),
        },
{
    if first_match(records, name) is None {
        assert forall|i: int| 0 <= i < records.len() implies !selects(
            #[trigger] records[i],
            name,
        ) by {
            if selects(records[i], name) {
                lemma_some_match_has_first(records, name, i);
            }
        }
    }
}

/// Where some record qualifies, one of them is the first.
proof fn lemma_some_match_has_first(records: Seq<RecordView>, name: Seq<char>, i: int)
    requires
        0 <= i < records.len(),
        selects(records[i], name),
    ensures
        exists|at: int| is_first_match(records, name, at),
    decreases i,
{
    if exists|earlier: int| 0 <= earlier < i && selects(#[trigger] records[earlier], name) {
        let earlier = choose|earlier: int|
            0 <= earlier < i && selects(#[trigger] records[earlier], name);
        lemma_some_match_has_first(records, name, earlier);
    } else {
        assert(is_first_match(records, name, i));
    }
}

/// An empty list of records yields nothing, whatever the name.
pub proof fn lemma_empty_has_no_match(name: Seq<char>)
    ensures
        first_match(Seq::<RecordView>::empty(), name) is None,
        matched_record(Seq::<RecordView>::empty(), name) is None,
{
}

/// Whether `record` is the address record of `record_name`.
pub fn is_address_record_of(record: &Record, record_name: &String) -> (b: bool)
    ensures
        b == selects(record@, record_name@),
{
    let address = "A".to_owned();
    proof {
        reveal_strlit("A");
        assert(address@ =~= address_type());
    }
    record.name == *record_name && record.type_field == address
}

/// The first record of `records`, in the given order, whose name equals
/// `record_name` exactly and whose type is "A"; `None` if there is none.
pub fn find_subdomain_record<'a>(records: &'a [Record], record_name: &'a String) -> (found: Option<
    &'a Record,
>)
    ensures
        match first_match(record_views(records@), record_name@) {
            Some(at) => found == Some(&records@[at]),
            None => found is None,
        },
        found matches Some(record) ==> matched_record(record_views(records@), record_name@) == Some(
            record@,
        ),
        found is None ==> matched_record(record_views(records@), record_name@) is None,
{
    let ghost views = record_views(records@);
    let mut i: usize = 0;
    while i < records.len()
        invariant
            views == record_views(records@),
            i <= records.len(),
            forall|earlier: int| 0 <= earlier < i ==> !selects(#[trigger] views[earlier], record_name@),
        decreases records.len() - i,
    {
        if is_address_record_of(&records[i], record_name) {
            proof {
                assert(is_first_match(views, record_name@, i as int));
                lemma_first_match_unique(views, record_name@, i as int);
            }
            return Some(&records[i]);
        }
        i = i + 1;
    }
    proof {
        if exists|at: int| is_first_match(views, record_name@, at) {
            let at = choose|at: int| is_first_match(views, record_name@, at);
            assert(!selects(views[at], record_name@));
        }
    }
    None
}

} // verus!
