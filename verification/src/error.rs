use vstd::prelude::*;
use vstd::string::StringExecFns;

verus! {

/// Every way a storage operation can fail. The kinds are distinguishable, so a
/// caller can tell bad input apart from a missing record and from a backend
/// that is down.
#[derive(Debug, PartialEq, Eq)]
pub enum StoreError {
    /// The payload text was not valid base64.
    EncodingError,
    /// No record carries the requested id; the id is kept for diagnosis.
    NotFound { id: String },
    /// The backend could not be reached or rejected the statement.
    StorageUnavailable,
    /// The record table could not be created at startup.
    SchemaError,
}

impl StoreError {
    /// A human-readable description of the failure; the not-found case names
    /// the id that had no record.
    pub fn message(&self) -> (m: String)
        ensures
            match self {
                StoreError::EncodingError => m@ == "invalid base64 payload"@,
                StoreError::NotFound { id } => m@ == "No file found for id = "@ + id@ + "."@,
                StoreError::StorageUnavailable => m@ == "storage backend unavailable"@,
                StoreError::SchemaError => m@ == "could not create the storage table"@,
            },
    {
        match self {
            StoreError::EncodingError => "invalid base64 payload".to_owned(),
            StoreError::NotFound { id } => {
                let mut m = "No file found for id = ".to_owned();
                m.append(id.as_str());
                m.append(".");
                m
            },
            StoreError::StorageUnavailable => "storage backend unavailable".to_owned(),
            StoreError::SchemaError => "could not create the storage table".to_owned(),
        }
    }
}

} // verus!
