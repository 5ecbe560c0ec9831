//! Verified core of an async SQLite connection handle that runs every database
//! call on one dedicated background thread.
//!
//! The library holds the parts of the handle that decide rather than wait:
//! the error type, the worker's dispatch state machine, and the mapping from
//! what came back over the channels to the result a caller sees.
mod outside;
pub mod error;
pub mod worker;
pub mod outcome;

pub use error::Error;

