//! The storage operations: one logical table of file records keyed by id,
//! created idempotently, only ever grown. `Query` lists metadata and fetches
//! one file's content; `Mutation` inserts a new record. Each operation is a
//! single unit of work and either succeeds or reports one of the error kinds.

use vstd::prelude::*;
use crate::codec::{b64_of, b64_decoded, encode_payload, decode_payload};
use crate::error::StoreError;
use crate::model::{
    RecordModel, MetaModel, StoreModel, meta_of, record_consistent, records_consistent,
    store_inv, contains_id, with_schema,
};

verus! {

/// One persisted file: the payload bytes and their metadata. Records live only
/// inside the store; contents leave it re-encoded, never raw.
struct FileRecord {
    id: String,
    name: String,
    created_at: String,
    file_size: usize,
    contents: Vec<u8>,
}

impl View for FileRecord {
    type V = RecordModel;

    closed spec fn view(&self) -> RecordModel {
        RecordModel {
            id: self.id@,
            name: self.name@,
            created_at: self.created_at@,
            file_size: self.file_size as nat,
            contents: self.contents@,
        }
    }
}

/// The metadata of one stored file, as a listing returns it. Content bytes are
/// never part of it.
#[derive(Debug, PartialEq, Eq)]
pub struct FileInfo {
    pub id: String,
    pub name: String,
    pub created_at: String,
    pub file_size: usize,
}

impl View for FileInfo {
    type V = MetaModel;

    open spec fn view(&self) -> MetaModel {
        MetaModel {
            id: self.id@,
            name: self.name@,
            created_at: self.created_at@,
            file_size: self.file_size as nat,
        }
    }
}

impl FileInfo {
    /// The insertion timestamp of the record, as text.
    pub fn create_date(&self) -> (r: String)
        ensures
            r@ == self@.created_at,
    {
        self.created_at.clone()
    }
}

/// The storage backend: the record table, if it has been created, and the
/// records themselves. Insert-only; records are never updated or deleted.
pub struct Store {
    ready: bool,
    records: Vec<FileRecord>,
}

impl View for Store {
    type V = StoreModel;

    closed spec fn view(&self) -> StoreModel {
        StoreModel { ready: self.ready, records: self.records@.map_values(|r: FileRecord| r@) }
    }
}

impl Store {
    /// The store invariant: record ids are distinct and every record's size
    /// field equals its payload length.
    pub open spec fn wf(&self) -> bool {
        store_inv(self@)
    }

    /// A fresh backend: no table yet, no records. Operations fail with
    /// `StorageUnavailable` until the schema exists.
    pub fn new() -> (s: Store)
        ensures
            s.wf(),
            !s@.ready,
            s@.records == Seq::<RecordModel>::empty(),
    {
        let s = Store { ready: false, records: Vec::new() };
        proof {
            assert(s@.records =~= Seq::<RecordModel>::empty());
        }
        s
    }

    /// Create the record table if it is missing. Idempotent: existing records
    /// are never touched, and a second call changes nothing more.
    pub fn ensure_schema(&mut self) -> (r: Result<(), StoreError>)
        requires
            old(self).wf(),
        ensures
            final(self).wf(),
            r == Ok::<(), StoreError>(()),
            final(self)@ == with_schema(old(self)@),
    {
        self.ready = true;
        proof {
            assert(self@ =~= with_schema(old(self)@));
        }
        Ok(())
    }

    /// The index of the record carrying this id, if any. Ids are unique under
    /// the invariant, so at most one record matches.
    fn find_index(&self, id: &String) -> (r: Option<usize>)
        ensures
            match r {
                Some(i) => i < self@.records.len() && self@.records[i as int].id == id@,
                None => !contains_id(self@.records, id@),
            },
    {
        let mut i: usize = 0;
        while i < self.records.len()
            invariant
                i <= self.records.len(),
                forall|k: int| 0 <= k < i ==> (#[trigger] self@.records[k]).id != id@,
            decreases self.records.len() - i,
        {
            if self.records[i].id == *id {
                return Some(i);
            }
            i += 1;
        }
        None
    }
}

/// The read side of the API: list the stored metadata, or fetch one file's
/// content by id.
pub struct Query;

impl Query {
    /// Read the metadata of every stored record, in storage order. Content
    /// bytes are never read. An empty listing is a valid outcome; the only
    /// failure is a backend without its table.
    pub fn list_files(&self, store: &Store) -> (r: Result<Vec<FileInfo>, StoreError>)
        requires
            store.wf(),
        ensures
            match r {
                Ok(v) => {
                    &&& store@.ready
                    &&& v@.len() == store@.records.len()
                    &&& forall|i: int|
                        0 <= i < v@.len() ==> (#[trigger] v@[i])@ == meta_of(store@.records[i])
                },
                Err(e) => !store@.ready && e == StoreError::StorageUnavailable,
            },
    {
        if !store.ready {
            return Err(StoreError::StorageUnavailable);
        }
        let mut v: Vec<FileInfo> = Vec::new();
        let mut i: usize = 0;
        while i < store.records.len()
            invariant
                i <= store.records.len(),
                v@.len() == i,
                forall|k: int|
                    0 <= k < i ==> (#[trigger] v@[k])@ == meta_of(store@.records[k]),
            decreases store.records.len() - i,
        {
            let rec = &store.records[i];
            let info = FileInfo {
                id: rec.id.clone(),
                name: rec.name.clone(),
                created_at: rec.created_at.clone(),
                file_size: rec.file_size,
            };
            v.push(info);
            i += 1;
        }
        Ok(v)
    }

    /// Fetch the content of the record carrying this id, re-encoded for
    /// transport. Fails with `NotFound`, naming the id, where no record
    /// matches; never returns a default in its place.
    pub fn get_file(&self, store: &Store, id: String) -> (r: Result<String, StoreError>)
        requires
            store.wf(),
        ensures
            match r {
                Ok(s) => {
                    &&& store@.ready
                    &&& exists|i: int|
                        0 <= i < store@.records.len()
                        && (#[trigger] store@.records[i]).id == id@
                        && s@ == b64_of(store@.records[i].contents)
                },
                Err(e) => match e {
                    StoreError::StorageUnavailable => !store@.ready,
                    StoreError::NotFound { id: missing } => {
                        &&& store@.ready
                        &&& !contains_id(store@.records, id@)
                        &&& missing@ == id@
                    },
                    _ => false,
                },
            },
    {
        if !store.ready {
            return Err(StoreError::StorageUnavailable);
        }
        match store.find_index(&id) {
            Some(i) => {
                let rec = &store.records[i];
                proof {
                    assert(record_consistent(store@.records[i as int]));
                }
                Ok(encode_payload(&rec.contents))
            },
            None => Err(StoreError::NotFound { id }),
        }
    }
}

/// The write side of the API: insert a new file record.
pub struct Mutation;

impl Mutation {
    /// Insert one record under a caller-supplied id and timestamp. Exact
    /// outcome: the payload is decoded first and rejected with
    /// `EncodingError` before any storage interaction; then a missing table,
    /// or an id already in use (a primary-key collision), fails with
    /// `StorageUnavailable`; otherwise exactly one new record is appended and
    /// the id is returned. On any failure the store is unchanged.
    pub fn put_file_with_id(
        &self,
        store: &mut Store,
        name: String,
        contents: &str,
        id: String,
        created_at: String,
    ) -> (r: Result<String, StoreError>)
        requires
            old(store).wf(),
            contents@.len() <= usize::MAX as int / 8,
        ensures
            final(store).wf(),
            match r {
                Ok(rid) => {
                    &&& old(store)@.ready
                    &&& !contains_id(old(store)@.records, id@)
                    &&& rid@ == id@
                    &&& b64_decoded(contents@) matches Some(d)
                        && (contents@.len() == 4 * ((d.len() + 2) / 3) ==> contents@ == b64_of(d))
                        && final(store)@ == (StoreModel {
                            ready: true,
                            records: old(store)@.records.push(
                                (RecordModel {
                                    id: id@,
                                    name: name@,
                                    created_at: created_at@,
                                    file_size: d.len(),
                                    contents: d,
                                }),
                            ),
                        })
                },
                Err(e) => {
                    &&& final(store)@ == old(store)@
                    &&& e == (if b64_decoded(contents@) is None {
                        StoreError::EncodingError
                    } else {
                        StoreError::StorageUnavailable
                    })
                    &&& b64_decoded(contents@) is Some
                        ==> !old(store)@.ready || contains_id(old(store)@.records, id@)
                },
            },
    {
        let bytes = match decode_payload(contents) {
            Ok(b) => b,
            Err(e) => {
                return Err(e);
            },
        };
        if !store.ready {
            return Err(StoreError::StorageUnavailable);
        }
        if let Some(_) = store.find_index(&id) {
            return Err(StoreError::StorageUnavailable);
        }
        let file_size = bytes.len();
        let rid = id.clone();
        let rec = FileRecord { id, name, created_at, file_size, contents: bytes };
        let ghost rm = rec@;
        let ghost before = store@;
        store.records.push(rec);
        proof {
            assert(store@.records =~= before.records.push(rm));
            assert(store@ =~= (StoreModel { ready: true, records: before.records.push(rm) }));
            assert forall|i: int, j: int| 0 <= i < j < store@.records.len() implies
                (#[trigger] store@.records[i]).id != (#[trigger] store@.records[j]).id by {
                if j + 1 == store@.records.len() {
                    assert(store@.records[i] == before.records[i]);
                }
            }
            assert(records_consistent(store@.records)) by {
                assert(forall|i: int|
                    0 <= i < before.records.len()
                        ==> #[trigger] store@.records[i] == before.records[i]);
            }
        }
        Ok(rid)
    }

    /// Insert a new file: decode the payload (rejecting invalid base64 before
    /// any storage interaction), draw a fresh random id, capture the current
    /// local time, and append one record whose recorded size is the decoded
    /// byte length. Returns the new id. On any failure the store is
    /// unchanged; `EncodingError` is returned exactly on invalid base64, and
    /// a missing table or an id collision yields `StorageUnavailable`. On an
    /// existing table with no records no drawn id can collide, so a valid
    /// payload is owed success there.
    pub fn put_file(&self, store: &mut Store, name: String, contents: String) -> (r:
        Result<String, StoreError>)
        requires
            old(store).wf(),
            contents@.len() <= usize::MAX as int / 8,
        ensures
            final(store).wf(),
            r matches Err(_) ==> final(store)@ == old(store)@,
            r == Err::<String, StoreError>(StoreError::EncodingError)
                <==> b64_decoded(contents@) is None,
            b64_decoded(contents@) is Some && !old(store)@.ready
                ==> r == Err::<String, StoreError>(StoreError::StorageUnavailable),
            b64_decoded(contents@) is Some && old(store)@.ready
                && old(store)@.records.len() == 0 ==> r matches Ok(_),
            r matches Ok(rid) ==> {
                &&& old(store)@.ready
                &&& final(store)@.ready
                &&& !contains_id(old(store)@.records, rid@)
                &&& final(store)@.records.len() == old(store)@.records.len() + 1
                &&& final(store)@.records.drop_last() == old(store)@.records
                &&& final(store)@.records.last().id == rid@
                &&& final(store)@.records.last().name == name@
                &&& b64_decoded(contents@) matches Some(d)
                    && final(store)@.records.last().contents == d
                    && final(store)@.records.last().file_size == d.len()
                    && (contents@.len() == 4 * ((d.len() + 2) / 3) ==> contents@ == b64_of(d))
            },
    {
        let id = fresh_id();
        let created_at = now_string();
        let r = self.put_file_with_id(store, name, contents.as_str(), id, created_at);
        proof {
            if r is Ok {
                assert(store@.records.drop_last() =~= old(store)@.records);
            }
        }
        r
    }
}

/// Relies on `uuid::Uuid::new_v4` and its hyphenated text form: a fresh
/// 128-bit random identifier. Nothing is assumed of its value.
#[verifier::external_body]
fn fresh_id() -> (r: String) {
    uuid::Uuid::new_v4().to_string()
}

/// Relies on `chrono::Local::now` and its RFC 2822 text form: the current
/// local time. Nothing is assumed of its value.
#[verifier::external_body]
fn now_string() -> (r: String) {
    chrono::Local::now().to_rfc2822()
}

} // verus!
