//! The decision of a run: given the caller's current address and the record
//! found for the name, whether to send an update, and how the reply to one is
//! read.
//!
//! The update is sent when the current address EQUALS the address that the
//! record already holds, and withheld when the two differ. For a tool whose
//! purpose is to follow a changing address this looks inverted. It is the
//! behaviour that this library states and keeps; `lemma_update_restates_record`
//! spells out what follows from it.

use crate::matcher::{first_match, matched_record};
use crate::record::{Record, RecordView};
use crate::text::{contains, contains_text};
use vstd::prelude::*;

verus! {

/// What a run does about the record it looked for.
#[derive(Debug, PartialEq)]
pub enum Decision {
    /// No record carries the name: nothing is sent.
    NoRecord,
    /// The record's address differs from the current one: nothing is sent,
    /// and the record counts as in sync.
    InSync,
    /// The record's address equals the current one: this record is sent to
    /// the provider as an update.
    Update(Record),
}

/// What a [`Decision`] holds, as mathematical values.
pub ghost enum DecisionView {
    NoRecord,
    InSync,
    Update(RecordView),
}

impl View for Decision {
    type V = DecisionView;

    open spec fn view(&self) -> DecisionView {
        match self {
            Decision::NoRecord => DecisionView::NoRecord,
            Decision::InSync => DecisionView::InSync,
            Decision::Update(record) => DecisionView::Update(record@),
        }
    }
}

/// Which of the three branches a decision takes.
pub ghost enum Branch {
    NoRecord,
    InSync,
    Update,
}

impl DecisionView {
    /// The branch of this decision, whatever record it may carry.
    pub open spec fn branch(self) -> Branch {
        match self {
            DecisionView::NoRecord => Branch::NoRecord,
            DecisionView::InSync => Branch::InSync,
            DecisionView::Update(_) => Branch::Update,
        }
    }
}

/// The view of a record that may be absent.
pub open spec fn found_view(found: Option<&Record>) -> Option<RecordView> {
    match found {
        Some(record) => Some(record@),
        None => None,
    }
}

/// The decision for the address `current_ip` and the search result `matched`.
///
/// | `matched` | `current_ip == matched.ip_addr` | decision                          |
/// |-----------|---------------------------------|-----------------------------------|
/// | none      |                                 | `NoRecord`                        |
/// | some      | true                            | `Update`, content := `current_ip` |
/// | some      | false                           | `InSync`                          |
pub open spec fn decide(current_ip: Seq<char>, matched: Option<RecordView>) -> DecisionView {
    match matched {
        None => DecisionView::NoRecord,
        Some(record) => if current_ip == record.ip_addr {
            DecisionView::Update(record.with_content(current_ip))
        } else {
            DecisionView::InSync
        },
    }
}

/// The decision of a run that finds `records` in the zone, looks for `name`
/// and is told that the caller's address is `current_ip`.
pub open spec fn decision_for(
    current_ip: Seq<char>,
    records: Seq<RecordView>,
    name: Seq<char>,
) -> DecisionView {
    decide(current_ip, matched_record(records, name))
}

/// The records of the zone once the provider has carried out `decision`,
/// taken for the name `name` on the records `records`.
pub open spec fn zone_after(
    records: Seq<RecordView>,
    name: Seq<char>,
    decision: DecisionView,
) -> Seq<RecordView> {
    match (decision, first_match(records, name)) {
        (DecisionView::Update(record), Some(at)) => records.update(at, record),
        _ => records,
    }
}

/// The text whose presence in the reply to an update counts as success.
pub open spec fn success_marker() -> Seq<char> {
    "success\":true"@
}

/// Whether the reply `body` to an update counts as success: it does exactly
/// when the marker stands somewhere in the raw text.
pub open spec fn reports_success(body: Seq<char>) -> bool {
    contains(body, success_marker())
}

/// An update never changes the record it is sent for: it is only decided when
/// the current address already is the record's content, so the record that
/// goes out equals the record that was found, field for field.
pub proof fn lemma_update_restates_record(current_ip: Seq<char>, matched: Option<RecordView>)
    ensures
        decide(current_ip, matched) matches DecisionView::Update(sent) ==> matched == Some(sent),
{
}

/// Reconciling is idempotent. Whether or not the provider carries out what
/// the first pass decided, the zone holds the same records afterwards, and a
/// second pass on them, told the same address, decides the same.
pub proof fn lemma_reconcile_idempotent(
    current_ip: Seq<char>,
    records: Seq<RecordView>,
    name: Seq<char>,
)
    ensures
        zone_after(records, name, decision_for(current_ip, records, name)) == records,
        decision_for(
            current_ip,
            zone_after(records, name, decision_for(current_ip, records, name)),
            name,
        ) == decision_for(current_ip, records, name),
{
    let decision = decision_for(current_ip, records, name);
    lemma_update_restates_record(current_ip, matched_record(records, name));
    assert(zone_after(records, name, decision) =~= records);
}

/// Two passes that see the same records and are told the same address take
/// the same branch.
pub proof fn lemma_same_inputs_same_branch(
    first_ip: Seq<char>,
    second_ip: Seq<char>,
    first_records: Seq<RecordView>,
    second_records: Seq<RecordView>,
    name: Seq<char>,
)
    requires
        first_ip == second_ip,
        first_records == second_records,
    ensures
        decision_for(first_ip, first_records, name).branch() == decision_for(
            second_ip,
            second_records,
            name,
        ).branch(),
{
}

/// Decides what to do about `matched`, the record found for the name, now
/// that the caller's address is `current_ip`.
pub fn reconcile(current_ip: &String, matched: Option<&Record>) -> (decision: Decision)
    ensures
        decision@ == decide(current_ip@, found_view(matched)),
{
    match matched {
        None => Decision::NoRecord,
        Some(record) => {
            if *current_ip == record.ip_addr {
                Decision::Update(record.with_content(current_ip.as_str()))
            } else {
                Decision::InSync
            }
        },
    }
}

/// Whether the raw reply `body` to an update counts as success.
pub fn update_succeeded(body: &str) -> (ok: bool)
    ensures
        ok == reports_success(body@),
{
    contains_text(body, "success\":true")
}

} // verus!
