use file_storage::error::StoreError;
use file_storage::store::{Mutation, Query, Store};

fn ready_store() -> Store {
    let mut store = Store::new();
    assert_eq!(store.ensure_schema(), Ok(()));
    store
}

#[test]
fn operations_fail_before_schema_exists() {
    let mut store = Store::new();
    assert_eq!(Query.list_files(&store), Err(StoreError::StorageUnavailable));
    assert_eq!(
        Query.get_file(&store, "any".to_string()),
        Err(StoreError::StorageUnavailable)
    );
    assert_eq!(
        Mutation.put_file(&mut store, "a".to_string(), "QQ==".to_string()),
        Err(StoreError::StorageUnavailable)
    );
}

#[test]
fn invalid_base64_fails_fast_even_without_schema() {
    let mut store = Store::new();
    assert_eq!(
        Mutation.put_file(&mut store, "x".to_string(), "not-valid-base64!!".to_string()),
        Err(StoreError::EncodingError)
    );
}

#[test]
fn schema_init_is_idempotent() {
    let mut store = Store::new();
    assert_eq!(store.ensure_schema(), Ok(()));
    let id = Mutation
        .put_file(&mut store, "a.txt".to_string(), "aGVsbG8=".to_string())
        .unwrap();
    assert_eq!(store.ensure_schema(), Ok(()));
    let listing = Query.list_files(&store).unwrap();
    assert_eq!(listing.len(), 1);
    assert_eq!(listing[0].id, id);
    assert_eq!(Query.get_file(&store, id).unwrap(), "aGVsbG8=");
}

#[test]
fn insert_then_get_returns_the_payload() {
    let mut store = ready_store();
    let encoded = base64::encode(b"hello");
    let id = Mutation
        .put_file(&mut store, "a.txt".to_string(), encoded.clone())
        .unwrap();
    assert_eq!(Query.get_file(&store, id), Ok(encoded));
}

#[test]
fn inserted_ids_are_distinct() {
    let mut store = ready_store();
    let n = 5;
    let mut ids = Vec::new();
    for i in 0..n {
        let name = format!("file-{i}");
        ids.push(Mutation.put_file(&mut store, name, "QQ==".to_string()).unwrap());
    }
    for i in 0..n {
        for j in 0..n {
            if i != j {
                assert_ne!(ids[i], ids[j]);
            }
        }
    }
    assert_eq!(Query.list_files(&store).unwrap().len(), n);
}

#[test]
fn listing_is_complete_and_holds_no_contents() {
    let mut store = ready_store();
    let a = Mutation.put_file(&mut store, "a".to_string(), "QQ==".to_string()).unwrap();
    let b = Mutation.put_file(&mut store, "b".to_string(), "QkI=".to_string()).unwrap();
    let c = Mutation.put_file(&mut store, "c".to_string(), "Q0ND".to_string()).unwrap();
    let listing = Query.list_files(&store).unwrap();
    assert_eq!(listing.len(), 3);
    let mut listed: Vec<String> = listing.iter().map(|m| m.id.clone()).collect();
    let mut expected = vec![a, b, c];
    listed.sort();
    expected.sort();
    assert_eq!(listed, expected);
}

#[test]
fn listing_records_the_decoded_size() {
    let mut store = ready_store();
    Mutation
        .put_file(&mut store, "a.txt".to_string(), base64::encode(b"hello"))
        .unwrap();
    Mutation
        .put_file(&mut store, "empty".to_string(), String::new())
        .unwrap();
    let listing = Query.list_files(&store).unwrap();
    assert_eq!(listing.len(), 2);
    assert_eq!(listing[0].name, "a.txt");
    assert_eq!(listing[0].file_size, 5);
    assert_eq!(listing[1].name, "empty");
    assert_eq!(listing[1].file_size, 0);
}

#[test]
fn metadata_keeps_the_timestamp_text() {
    let mut store = ready_store();
    Mutation
        .put_file(&mut store, "a.txt".to_string(), "QQ==".to_string())
        .unwrap();
    let listing = Query.list_files(&store).unwrap();
    assert_eq!(listing[0].create_date(), listing[0].created_at);
}

#[test]
fn get_of_unknown_id_is_not_found_and_names_it() {
    let store = {
        let mut s = Store::new();
        s.ensure_schema().unwrap();
        s
    };
    let r = Query.get_file(&store, "nonexistent-id".to_string());
    match r {
        Err(StoreError::NotFound { ref id }) => {
            assert_eq!(id, "nonexistent-id");
        }
        other => panic!("expected NotFound, got {other:?}"),
    }
    let message = r.unwrap_err().message();
    assert_eq!(message, "No file found for id = nonexistent-id.");
    assert!(message.contains("nonexistent-id"));
}

#[test]
fn invalid_base64_is_rejected_and_inserts_nothing() {
    let mut store = ready_store();
    Mutation
        .put_file(&mut store, "ok".to_string(), "QQ==".to_string())
        .unwrap();
    let r = Mutation.put_file(&mut store, "x".to_string(), "not-valid-base64!!".to_string());
    assert_eq!(r, Err(StoreError::EncodingError));
    assert_eq!(Query.list_files(&store).unwrap().len(), 1);
}

#[test]
fn colliding_id_is_a_storage_failure_and_inserts_nothing() {
    let mut store = ready_store();
    Mutation
        .put_file_with_id(
            &mut store,
            "a".to_string(),
            "QQ==",
            "fixed-id".to_string(),
            "ts".to_string(),
        )
        .unwrap();
    let r = Mutation.put_file_with_id(
        &mut store,
        "b".to_string(),
        "QkI=",
        "fixed-id".to_string(),
        "ts".to_string(),
    );
    assert_eq!(r, Err(StoreError::StorageUnavailable));
    assert_eq!(Query.list_files(&store).unwrap().len(), 1);
}

#[test]
fn error_messages_name_their_kind() {
    assert_eq!(StoreError::EncodingError.message(), "invalid base64 payload");
    assert_eq!(
        StoreError::StorageUnavailable.message(),
        "storage backend unavailable"
    );
    assert_eq!(
        StoreError::SchemaError.message(),
        "could not create the storage table"
    );
}
