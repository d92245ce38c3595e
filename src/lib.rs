//! An upload service's core: a multipart accumulator that turns unordered form
//! fields into a validated upload request, the interpretation of the storage
//! backend's answer, and an append-only index from owner to stored artifacts.
use vstd::prelude::*;

pub mod error;
pub mod index;
pub mod ingest;
pub mod reply;
pub mod storage;

verus! {

} // verus!
