//! Catalog records and the reconciliation of append-only histories.
//!
//! A record is an identity and an opaque payload. Catalog items, audit log
//! entries and storage usage records are all records. Histories are merged by
//! identity: what the destination already holds stays where it is, and an
//! incoming entry is appended only when its identity is new.
use vstd::prelude::*;

verus! {

/// An identified entry with an opaque payload.
#[derive(Clone, Debug, PartialEq, Eq)]
pub struct Record {
    pub id: u64,
    pub payload: Vec<u8>,
}

/// The mathematical value of a [`Record`].
pub struct RecordView {
    pub id: u64,
    pub payload: Seq<u8>,
}

impl View for Record {
    type V = RecordView;

    open spec fn view(&self) -> RecordView {
        RecordView { id: self.id, payload: self.payload@ }
    }
}

impl DeepView for Record {
    type V = RecordView;

    open spec fn deep_view(&self) -> RecordView {
        self@
    }
}

/// Whether some record of `records` has the identity `id`.
pub open spec fn has_id(records: Seq<RecordView>, id: u64) -> bool {
    exists|i: int| 0 <= i < records.len() && #[trigger] records[i].id == id
}

/// Whether no identity occurs twice in `records`.
pub open spec fn distinct_ids(records: Seq<RecordView>) -> bool {
    forall|i: int, j: int|
        0 <= i < j < records.len() ==> #[trigger] records[i].id != #[trigger] records[j].id
}

/// Whether every identity of `inner` also occurs in `outer`.
pub open spec fn ids_within(inner: Seq<RecordView>, outer: Seq<RecordView>) -> bool {
    forall|i: int| 0 <= i < inner.len() ==> has_id(outer, #[trigger] inner[i].id)
}

/// The union of two histories by identity. The existing history is kept as a
/// prefix; each incoming entry, in order, is appended unless its identity is
/// already present.
pub open spec fn reconcile(existing: Seq<RecordView>, incoming: Seq<RecordView>) -> Seq<
    RecordView,
>
    decreases incoming.len(),
{
    if incoming.len() == 0 {
        existing
    } else {
        let merged = reconcile(existing, incoming.drop_last());
        if has_id(merged, incoming.last().id) {
            merged
        } else {
            merged.push(incoming.last())
        }
    }
}

impl Record {
    /// Builds a record.
    pub fn new(id: u64, payload: Vec<u8>) -> (r: Record)
        ensures
            r@ == (RecordView { id, payload: payload@ }),
    {
        Record { id, payload }
    }

    /// A copy of the record.
    pub fn duplicate(&self) -> (r: Record)
        ensures
            r@ == self@,
    {
        let payload = self.payload.clone();
        assert(payload@ =~= self.payload@);
        Record { id: self.id, payload }
    }
}

/// A copy of a list of records.
pub fn duplicate_records(records: &Vec<Record>) -> (copy: Vec<Record>)
    ensures
        copy.deep_view() == records.deep_view(),
{
    let mut copy: Vec<Record> = Vec::new();
    let mut i: usize = 0;
    while i < records.len()
        invariant
            i <= records.len(),
            copy.len() == i,
            forall|k: int| 0 <= k < i ==> copy[k]@ == records[k]@,
        decreases records.len() - i,
    {
        copy.push(records[i].duplicate());
        i += 1;
    }
    assert(copy.deep_view() =~= records.deep_view());
    copy
}

/// Whether a record with the identity `id` is in `records`.
pub fn contains_id(records: &Vec<Record>, id: u64) -> (found: bool)
    ensures
        found == has_id(records.deep_view(), id),
{
    let mut i: usize = 0;
    while i < records.len()
        invariant
            i <= records.len(),
            forall|k: int| 0 <= k < i ==> records[k].id != id,
        decreases records.len() - i,
    {
        if records[i].id == id {
            assert(records.deep_view()[i as int].id == id);
            return true;
        }
        i += 1;
    }
    assert forall|k: int| 0 <= k < records.deep_view().len() implies records.deep_view()[k].id
        != id by {
        assert(records.deep_view()[k] == records[k]@);
    }
    false
}

/// Merges `incoming` into `existing` by identity.
pub fn reconcile_histories(existing: Vec<Record>, incoming: &Vec<Record>) -> (merged: Vec<
    Record,
>)
    ensures
        merged.deep_view() == reconcile(existing.deep_view(), incoming.deep_view()),
{
    let ghost base = existing.deep_view();
    let ghost added = incoming.deep_view();
    let mut merged = existing;
    let mut i: usize = 0;
    while i < incoming.len()
        invariant
            i <= incoming.len(),
            added == incoming.deep_view(),
            merged.deep_view() == reconcile(base, added.take(i as int)),
        decreases incoming.len() - i,
    {
        let ghost before = merged.deep_view();
        proof {
            assert(added.take(i as int + 1).drop_last() =~= added.take(i as int));
            assert(added.take(i as int + 1).last() == incoming[i as int]@);
        }
        if !contains_id(&merged, incoming[i].id) {
            merged.push(incoming[i].duplicate());
            assert(merged.deep_view() =~= before.push(incoming[i as int]@));
        }
        i += 1;
    }
    assert(added.take(incoming.len() as int) =~= added);
    merged
}

/// The existing history survives reconciliation as a prefix: nothing it
/// holds is lost, changed or reordered.
pub proof fn reconcile_keeps_existing(existing: Seq<RecordView>, incoming: Seq<RecordView>)
    ensures
        reconcile(existing, incoming).len() >= existing.len(),
        reconcile(existing, incoming).take(existing.len() as int) == existing,
    decreases incoming.len(),
{
    if incoming.len() == 0 {
        assert(existing.take(existing.len() as int) =~= existing);
    } else {
        reconcile_keeps_existing(existing, incoming.drop_last());
        let merged = reconcile(existing, incoming.drop_last());
        assert(merged.push(incoming.last()).take(existing.len() as int) =~= merged.take(
            existing.len() as int,
        ));
    }
}

/// The identities of a reconciled history are exactly those of its two
/// inputs.
pub proof fn reconcile_ids(existing: Seq<RecordView>, incoming: Seq<RecordView>, id: u64)
    ensures
        has_id(reconcile(existing, incoming), id) <==> has_id(existing, id) || has_id(
            incoming,
            id,
        ),
    decreases incoming.len(),
{
    if incoming.len() == 0 {
    } else {
        let front = incoming.drop_last();
        let last = incoming.last();
        let merged = reconcile(existing, front);
        reconcile_ids(existing, front, id);
        let result = reconcile(existing, incoming);
        if has_id(incoming, id) {
            let k = choose|k: int| 0 <= k < incoming.len() && #[trigger] incoming[k].id == id;
            if k < front.len() {
                assert(front[k].id == id);
            } else {
                if !has_id(merged, last.id) {
                    assert(result[merged.len() as int].id == id);
                }
            }
        }
        if has_id(front, id) {
            let k = choose|k: int| 0 <= k < front.len() && #[trigger] front[k].id == id;
            assert(incoming[k].id == id);
        }
        if has_id(merged, id) {
            let k = choose|k: int| 0 <= k < merged.len() && #[trigger] merged[k].id == id;
            if !has_id(merged, last.id) {
                assert(result[k].id == id);
            }
        }
        if has_id(result, id) && !has_id(merged, id) {
            let k = choose|k: int| 0 <= k < result.len() && #[trigger] result[k].id == id;
            assert(k == merged.len());
            assert(incoming[incoming.len() - 1].id == id);
        }
    }
}

/// An incoming history that brings no new identity leaves the existing
/// history exactly as it was.
pub proof fn reconcile_absorbs(existing: Seq<RecordView>, incoming: Seq<RecordView>)
    requires
        ids_within(incoming, existing),
    ensures
        reconcile(existing, incoming) == existing,
    decreases incoming.len(),
{
    if incoming.len() > 0 {
        let front = incoming.drop_last();
        assert forall|i: int| 0 <= i < front.len() implies has_id(
            existing,
            #[trigger] front[i].id,
        ) by {
            assert(front[i] == incoming[i]);
        }
        reconcile_absorbs(existing, front);
        assert(has_id(existing, incoming[incoming.len() - 1].id));
    }
}

/// Reconciling the same incoming history a second time changes nothing.
pub proof fn reconcile_is_idempotent(existing: Seq<RecordView>, incoming: Seq<RecordView>)
    ensures
        reconcile(reconcile(existing, incoming), incoming) == reconcile(existing, incoming),
{
    let once = reconcile(existing, incoming);
    assert forall|i: int| 0 <= i < incoming.len() implies has_id(
        once,
        #[trigger] incoming[i].id,
    ) by {
        reconcile_ids(existing, incoming, incoming[i].id);
    }
    reconcile_absorbs(once, incoming);
}

/// Reconciliation never introduces a repeated identity.
pub proof fn reconcile_keeps_ids_distinct(existing: Seq<RecordView>, incoming: Seq<RecordView>)
    requires
        distinct_ids(existing),
    ensures
        distinct_ids(reconcile(existing, incoming)),
    decreases incoming.len(),
{
    if incoming.len() > 0 {
        reconcile_keeps_ids_distinct(existing, incoming.drop_last());
        let merged = reconcile(existing, incoming.drop_last());
        let result = reconcile(existing, incoming);
        if !has_id(merged, incoming.last().id) {
            assert forall|i: int, j: int| 0 <= i < j < result.len() implies #[trigger] result[i].id
                != #[trigger] result[j].id by {
                if j == merged.len() {
                    assert(merged[i].id != incoming.last().id);
                } else {
                    assert(merged[i].id != merged[j].id);
                }
            }
        }
    }
}

/// Sending a history to a destination and reconciling the result back
/// changes nothing at the source, provided that the source already holds
/// every identity of the destination, as it does when the destination is
/// fresh.
pub proof fn reconcile_round_trip(source: Seq<RecordView>, destination: Seq<RecordView>)
    requires
        ids_within(destination, source),
    ensures
        reconcile(source, reconcile(destination, source)) == source,
{
    let sent = reconcile(destination, source);
    assert forall|i: int| 0 <= i < sent.len() implies has_id(source, #[trigger] sent[i].id) by {
        reconcile_ids(destination, source, sent[i].id);
        assert(has_id(sent, sent[i].id));
        if has_id(destination, sent[i].id) {
            let k = choose|k: int|
                0 <= k < destination.len() && #[trigger] destination[k].id == sent[i].id;
            assert(has_id(source, destination[k].id));
        }
    }
    reconcile_absorbs(source, sent);
}

} // verus!
