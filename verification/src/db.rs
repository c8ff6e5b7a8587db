//! The persisted shape of a completed request: one append-only record per
//! pipeline run. Reading and writing the store is the caller's I/O concern;
//! the pipeline treats a persist failure as advisory.

use vstd::prelude::*;

verus! {

/// One stored request record, as the store hands it back: the row id, the
/// request's external id, and the storage path its archive went to.
pub struct OamRequest {
    pub id: i32,
    pub external_id: String,
    pub storage_path: String,
}

} // verus!
