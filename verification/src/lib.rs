//! Decision logic of a gateway in front of an S3-compatible object store.
//!
//! The gateway lists key prefixes as folders, hands out short-lived download
//! links and streams uploads into the store as multipart uploads. Talking to
//! the store and to the cache is left to the caller: each service here is a
//! state machine that says which call to make next and what to do with its
//! answer.

pub mod cache;
pub mod download;
pub mod error;
pub mod instant;
pub mod link;
pub mod listing;
pub mod page;
pub mod response;
pub mod text;
pub mod upload;
pub mod upload_run;
