//! A minimal file-storage core: clients hand in named base64 payloads and get
//! back opaque ids; the store keeps the decoded bytes with their metadata and
//! re-encodes them on retrieval.
//!
//! The storage logic lives here, verified; transport, framing and the durable
//! database engine are outside collaborators.

pub mod codec;
pub mod error;
pub mod model;
pub mod store;
