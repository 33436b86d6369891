//! The mathematical model of the backend: what a record is, what the whole
//! store looks like, and the invariants that every operation preserves.

use vstd::prelude::*;
use crate::codec::encodable;

verus! {

/// One stored record: the opaque id, the display name, the insertion
/// timestamp, the recorded size, and the raw payload bytes.
#[verifier::ext_equal]
pub ghost struct RecordModel {
    pub id: Seq<char>,
    pub name: Seq<char>,
    pub created_at: Seq<char>,
    pub file_size: nat,
    pub contents: Seq<u8>,
}

/// The metadata of a record, as a listing returns it: everything but the
/// payload bytes.
#[verifier::ext_equal]
pub ghost struct MetaModel {
    pub id: Seq<char>,
    pub name: Seq<char>,
    pub created_at: Seq<char>,
    pub file_size: nat,
}

/// The whole backend: whether the record table exists, and the records in
/// insertion order.
#[verifier::ext_equal]
pub ghost struct StoreModel {
    pub ready: bool,
    pub records: Seq<RecordModel>,
}

/// The metadata of one record.
pub open spec fn meta_of(r: RecordModel) -> MetaModel {
    MetaModel { id: r.id, name: r.name, created_at: r.created_at, file_size: r.file_size }
}

/// No two records share an id.
pub open spec fn ids_distinct(rs: Seq<RecordModel>) -> bool {
    forall|i: int, j: int|
        0 <= i < j < rs.len() ==> (#[trigger] rs[i]).id != (#[trigger] rs[j]).id
}

/// The recorded size of a record is the byte length of its payload, and the
/// payload is short enough to be re-encoded.
pub open spec fn record_consistent(r: RecordModel) -> bool {
    &&& r.file_size == r.contents.len()
    &&& encodable(r.contents.len() as int)
}

/// Every record of the store is consistent.
pub open spec fn records_consistent(rs: Seq<RecordModel>) -> bool {
    forall|i: int| 0 <= i < rs.len() ==> record_consistent(#[trigger] rs[i])
}

/// The store invariant: distinct ids and consistent records. Established at
/// creation and preserved by every operation.
pub open spec fn store_inv(m: StoreModel) -> bool {
    ids_distinct(m.records) && records_consistent(m.records)
}

/// Some record of the store carries this id.
pub open spec fn contains_id(rs: Seq<RecordModel>, id: Seq<char>) -> bool {
    exists|i: int| 0 <= i < rs.len() && (#[trigger] rs[i]).id == id
}

/// What schema creation does to the backend: the table exists afterwards and
/// the records stand unchanged.
pub open spec fn with_schema(m: StoreModel) -> StoreModel {
    StoreModel { ready: true, records: m.records }
}

/// Schema creation is idempotent: applying it twice in a row is the same as
/// applying it once, so a second run neither errs nor alters existing data.
pub proof fn lemma_with_schema_idempotent(m: StoreModel)
    ensures
        with_schema(with_schema(m)) == with_schema(m),
{
}

/// The ids held in storage, as a set.
pub open spec fn stored_ids(rs: Seq<RecordModel>) -> Set<Seq<char>> {
    rs.map_values(|r: RecordModel| r.id).to_set()
}

/// Uniqueness: a store that satisfies the invariant holds exactly as many
/// distinct ids as it holds records, so N successful inserts leave N distinct
/// ids in storage.
pub proof fn lemma_ids_distinct_count(m: StoreModel)
    requires
        store_inv(m),
    ensures
        stored_ids(m.records).len() == m.records.len(),
{
    let ids = m.records.map_values(|r: RecordModel| r.id);
    assert forall|i: int, j: int| 0 <= i < ids.len() && 0 <= j < ids.len() && i != j implies
        #[trigger] ids[i] != #[trigger] ids[j] by {
        if i < j {
            assert(m.records[i].id != m.records[j].id);
        } else {
            assert(m.records[j].id != m.records[i].id);
        }
    }
    ids.unique_seq_to_set();
}

} // verus!
