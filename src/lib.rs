//! Resumable chunked uploads into named rooms: the decisions of the upload
//! protocol, the validation of the untrusted names and offsets it receives,
//! the naming of pasteboard entries, and an in-memory model of an upload
//! target on which the protocol's laws are proved.

pub mod error;
pub mod laws;
pub mod offset;
pub mod pasteboard;
pub mod protocol;
pub mod request;
pub mod segment;
pub mod target;
